//! Copying between two endpoints: the `scp` call that does it.
//!
//! Both endpoints are resolved against the store. A remote side is written
//! as `connection:path`, with the port and the key of its host alias; a local
//! side is a path on this machine, with a leading `~/` expanded.

use crate::config::{
    expanded, home_dir, slice_text_of, text_of, Config, ConfigView, DEFAULT_PORT,
};
use crate::invocation::{no_texts, push_text, texts_of, Invocation, InvocationView};
use crate::resolve::{parse_path_spec, resolve, ResolveError, ResolveErrorView};
use crate::table::lookup;
use crate::text::{decimal, decimal_text};
use vstd::prelude::*;
use vstd::string::*;

verus! {

/// Why no copy could be planned.
#[derive(Debug, Clone, PartialEq, Eq)]
pub enum CopyError {
    /// The source does not resolve.
    Source(ResolveError),
    /// The source resolves, the destination does not.
    Destination(ResolveError),
    /// Both resolve, but a local path begins with `~/` and no home directory
    /// is known.
    HomeUnknown,
}

/// The model of a [`CopyError`].
pub enum CopyErrorView {
    Source(ResolveErrorView),
    Destination(ResolveErrorView),
    HomeUnknown,
}

impl View for CopyError {
    type V = CopyErrorView;

    open spec fn view(&self) -> CopyErrorView {
        match self {
            CopyError::Source(e) => CopyErrorView::Source(e@),
            CopyError::Destination(e) => CopyErrorView::Destination(e@),
            CopyError::HomeUnknown => CopyErrorView::HomeUnknown,
        }
    }
}

/// The model of the result of planning a copy.
pub open spec fn copy_result_of(r: Result<Invocation, CopyError>) -> Result<
    InvocationView,
    CopyErrorView,
> {
    match r {
        Ok(call) => Ok(call@),
        Err(e) => Err(e@),
    }
}

/// The options that name the port and the key of a remote side: those of
/// the host alias where `host` is one, else the default port alone.
pub open spec fn remote_options(store: ConfigView, host: Seq<char>) -> Seq<Seq<char>> {
    match lookup(store.hosts, host) {
        Some(alias) => {
            let port = seq!["-P"@, decimal(alias.port as nat)];
            match alias.key_path {
                Some(k) => port + seq!["-i"@, k],
                None => port,
            }
        },
        None => seq!["-P"@, decimal(DEFAULT_PORT as nat)],
    }
}

/// How a remote side is written for `scp`: the connection of the host alias
/// where `host` is one, else `host` itself, then a colon and the path.
pub open spec fn remote_operand(store: ConfigView, host: Seq<char>, path: Seq<char>) -> Seq<char> {
    match lookup(store.hosts, host) {
        Some(alias) => alias.connection + seq![':'] + path,
        None => host + seq![':'] + path,
    }
}

/// The arguments for one side of a copy: for a remote side its options, if
/// they are wanted, and its operand; for a local side the expanded path.
/// There are none where the path cannot be expanded.
pub open spec fn side_args(
    store: ConfigView,
    side: (Seq<char>, Option<Seq<char>>),
    with_options: bool,
    home: Option<Seq<char>>,
) -> Option<Seq<Seq<char>>> {
    match side.1 {
        Some(host) => Some(
            (if with_options {
                remote_options(store, host)
            } else {
                Seq::empty()
            }) + seq![remote_operand(store, host, side.0)],
        ),
        None => match expanded(side.0, home) {
            Some(path) => Some(seq![path]),
            None => None,
        },
    }
}

/// The arguments of the `scp` call that copies from `source` to `target`:
/// `-r`, the source side, the destination side. A remote source always
/// brings its options; a remote destination brings its own only where the
/// source is local.
pub open spec fn scp_args(
    store: ConfigView,
    source: (Seq<char>, Option<Seq<char>>),
    target: (Seq<char>, Option<Seq<char>>),
    home: Option<Seq<char>>,
) -> Option<Seq<Seq<char>>> {
    match side_args(store, source, true, home) {
        Some(from) => match side_args(store, target, source.1 is None, home) {
            Some(to) => Some(seq!["-r"@] + from + to),
            None => None,
        },
        None => None,
    }
}

/// The `scp` call that copies from the endpoint `src` to the endpoint `dst`,
/// or the first thing that stands in its way: the source is resolved first,
/// then the destination, then local paths are expanded.
pub open spec fn copy_plan(
    store: ConfigView,
    src: Seq<char>,
    dst: Seq<char>,
    home: Option<Seq<char>>,
) -> Result<InvocationView, CopyErrorView> {
    match resolve(src, store) {
        Err(e) => Err(CopyErrorView::Source(e)),
        Ok(source) => match resolve(dst, store) {
            Err(e) => Err(CopyErrorView::Destination(e)),
            Ok(target) => match scp_args(store, source, target, home) {
                Some(args) => Ok(InvocationView { program: "scp"@, args }),
                None => Err(CopyErrorView::HomeUnknown),
            },
        },
    }
}

/// Where a copy can be planned without a home directory, or fails for an
/// endpoint that does not resolve, the home directory has no say in the
/// plan.
pub proof fn lemma_copy_without_home(
    store: ConfigView,
    src: Seq<char>,
    dst: Seq<char>,
    home: Option<Seq<char>>,
)
    requires
        !(copy_plan(store, src, dst, None) matches Err(CopyErrorView::HomeUnknown)),
    ensures
        copy_plan(store, src, dst, home) == copy_plan(store, src, dst, None),
{
}

/// Appends the arguments for one side of a copy to `args`, or gives up
/// where a local path cannot be expanded.
fn push_side(
    args: &mut Vec<String>,
    config: &Config,
    path: &str,
    host: &Option<String>,
    with_options: bool,
    home: Option<&str>,
) -> (ok: bool)
    ensures
        ok == side_args(config@, (path@, text_of(*host)), with_options, slice_text_of(home))
            is Some,
        ok ==> texts_of(final(args)@) == texts_of(old(args)@) + side_args(
            config@,
            (path@, text_of(*host)),
            with_options,
            slice_text_of(home),
        )->0,
{
    proof {
        reveal_strlit(":");
    }
    match host {
        Some(name) => {
            match config.hosts.get(name.as_str()) {
                Some(alias) => {
                    if with_options {
                        push_text(args, String::from_str("-P"));
                        push_text(args, decimal_text(alias.port as u32));
                        if let Some(k) = &alias.key_path {
                            push_text(args, String::from_str("-i"));
                            push_text(args, k.clone());
                        }
                    }
                    let mut operand = alias.connection.clone();
                    operand.append(":");
                    operand.append(path);
                    assert(operand@ =~= alias@.connection + seq![':'] + path@);
                    push_text(args, operand);
                },
                None => {
                    if with_options {
                        push_text(args, String::from_str("-P"));
                        push_text(args, decimal_text(DEFAULT_PORT as u32));
                    }
                    let mut operand = name.clone();
                    operand.append(":");
                    operand.append(path);
                    assert(operand@ =~= name@ + seq![':'] + path@);
                    push_text(args, operand);
                },
            }
            true
        },
        None => match Config::expand_path_with_home(path, home) {
            Some(local) => {
                push_text(args, local);
                true
            },
            None => false,
        },
    }
}

/// Plans the `scp` call that copies from the endpoint `src` to the endpoint
/// `dst`, with the home directory given by the caller.
pub fn copy_files_with_home(
    config: &Config,
    src: &str,
    dst: &str,
    home: Option<&str>,
) -> (r: Result<Invocation, CopyError>)
    ensures
        copy_result_of(r) == copy_plan(config@, src@, dst@, slice_text_of(home)),
{
    let (src_path, src_host) = match parse_path_spec(src, config) {
        Ok(source) => source,
        Err(e) => {
            return Err(CopyError::Source(e));
        },
    };
    let (dst_path, dst_host) = match parse_path_spec(dst, config) {
        Ok(target) => target,
        Err(e) => {
            return Err(CopyError::Destination(e));
        },
    };
    let mut args = no_texts();
    push_text(&mut args, String::from_str("-r"));
    let src_is_local = src_host.is_none();
    if !push_side(&mut args, config, src_path.as_str(), &src_host, true, home) {
        return Err(CopyError::HomeUnknown);
    }
    if !push_side(&mut args, config, dst_path.as_str(), &dst_host, src_is_local, home) {
        return Err(CopyError::HomeUnknown);
    }
    Ok(Invocation { program: String::from_str("scp"), args })
}

/// Plans the `scp` call that copies from the endpoint `src` to the endpoint
/// `dst`, with the home directory of the current user.
///
/// What comes back is what [`copy_files_with_home`] gives for the home directory
/// that the environment reports. Where an endpoint does not resolve, or no
/// local side begins with `~/`, the environment has no say.
pub fn copy_files(config: &Config, src: &str, dst: &str) -> (r: Result<Invocation, CopyError>)
    ensures
        exists|home: Option<Seq<char>>|
            copy_result_of(r) == #[trigger] copy_plan(config@, src@, dst@, home),
        !(copy_plan(config@, src@, dst@, None) matches Err(CopyErrorView::HomeUnknown))
            ==> copy_result_of(r) == copy_plan(config@, src@, dst@, None),
{
    let home = home_dir();
    let r = match &home {
        Some(h) => copy_files_with_home(config, src, dst, Some(h.as_str())),
        None => copy_files_with_home(config, src, dst, None),
    };
    proof {
        if !(copy_plan(config@, src@, dst@, None) matches Err(CopyErrorView::HomeUnknown)) {
            lemma_copy_without_home(config@, src@, dst@, text_of(home));
        }
    }
    r
}

} // verus!
