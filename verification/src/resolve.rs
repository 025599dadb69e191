//! Resolution of a copy endpoint: what a string such as `prod:/var/log`,
//! `myhost:backup`, `user@10.0.0.5:/tmp`, `notes` or `./file` refers to.
//!
//! The rules are tried in a fixed order and the first that applies decides.
//! Only the host table and the unified path table are consulted; the local
//! and per-host path tables are reached by name through the operations that
//! add to them and list them, never through an endpoint string.

use crate::config::{text_of, Config, ConfigView, PathView};
use crate::hostname::{is_valid_hostname, valid_hostname};
use crate::table::has_key;
use crate::text::{
    after_first, before_first, chars_of, contains_char, find_char, lemma_first_at,
    lemma_split_of_join,
};
use vstd::prelude::*;
use vstd::string::*;

verus! {

/// Why an endpoint could not be resolved. Each error carries the token that
/// caused it.
#[derive(Debug, Clone, PartialEq, Eq)]
pub enum ResolveError {
    /// What stands before the colon is no host alias and cannot be an SSH
    /// target either.
    UnknownHost(String),
    /// What stands after the colon names a path alias that is flagged local.
    NotRemotePath(String),
    /// The endpoint names a path alias that is flagged remote, but gives no
    /// host.
    RemoteWithoutHost(String),
}

/// The model of a [`ResolveError`].
pub enum ResolveErrorView {
    UnknownHost(Seq<char>),
    NotRemotePath(Seq<char>),
    RemoteWithoutHost(Seq<char>),
}

impl View for ResolveError {
    type V = ResolveErrorView;

    open spec fn view(&self) -> ResolveErrorView {
        match self {
            ResolveError::UnknownHost(t) => ResolveErrorView::UnknownHost(t@),
            ResolveError::NotRemotePath(t) => ResolveErrorView::NotRemotePath(t@),
            ResolveError::RemoteWithoutHost(t) => ResolveErrorView::RemoteWithoutHost(t@),
        }
    }
}

impl ResolveErrorView {
    /// The token that the error is about.
    pub open spec fn token(self) -> Seq<char> {
        match self {
            ResolveErrorView::UnknownHost(t) => t,
            ResolveErrorView::NotRemotePath(t) => t,
            ResolveErrorView::RemoteWithoutHost(t) => t,
        }
    }

    /// The text that reports the error: it quotes the token.
    pub open spec fn message(self) -> Seq<char> {
        match self {
            ResolveErrorView::UnknownHost(t) => "ホスト '"@ + t
                + "' が見つからず、有効なSSH接続文字列でもありません"@,
            ResolveErrorView::NotRemotePath(t) => "パス '"@ + t + "' はリモートパスではありません"@,
            ResolveErrorView::RemoteWithoutHost(t) => "パス '"@ + t
                + "' はリモートパスですが、ホストが指定されていません"@,
        }
    }
}

/// `part` stands somewhere in `whole`.
pub open spec fn occurs_in(part: Seq<char>, whole: Seq<char>) -> bool {
    exists|before: Seq<char>, after: Seq<char>| whole == #[trigger] (before + part + after)
}

/// The text that reports an error names the token that the error is about.
pub proof fn lemma_message_names_token(error: ResolveErrorView)
    ensures
        occurs_in(error.token(), error.message()),
{
}

/// What an endpoint resolves to: a path and, for a remote endpoint, the host
/// it is on; or the reason why it resolves to nothing.
pub type Resolution = Result<(Seq<char>, Option<Seq<char>>), ResolveErrorView>;

/// The resolution to `path`, on `host` where there is one.
pub open spec fn resolved(path: Seq<char>, host: Option<Seq<char>>) -> Resolution {
    Ok((path, host))
}

/// The resolution that fails with `error`.
pub open spec fn refused(error: ResolveErrorView) -> Resolution {
    Err(error)
}

/// The model of a resolver result.
pub open spec fn resolution_of(r: Result<(String, Option<String>), ResolveError>) -> Resolution {
    match r {
        Ok((path, host)) => Ok((path@, text_of(host))),
        Err(e) => Err(e@),
    }
}

/// What `right`, the text after the colon, stands for on a registered host:
/// the stored path of a path alias flagged remote, itself where it is no
/// alias, and nothing where it names an alias flagged local.
pub open spec fn resolve_on_host(right: Seq<char>, host: Seq<char>, store: ConfigView)
    -> Resolution {
    match store.legacy_path(right) {
        Some(entry) => if entry.is_remote {
            resolved(entry.path, Some(host))
        } else {
            refused(ResolveErrorView::NotRemotePath(right))
        },
        None => resolved(right, Some(host)),
    }
}

/// What an endpoint without a colon stands for: the stored path of a path
/// alias flagged local, itself where it is no alias, and nothing where it
/// names an alias flagged remote.
pub open spec fn resolve_bare(spec: Seq<char>, store: ConfigView) -> Resolution {
    match store.legacy_path(spec) {
        Some(entry) => if entry.is_remote {
            refused(ResolveErrorView::RemoteWithoutHost(spec))
        } else {
            resolved(entry.path, None)
        },
        None => resolved(spec, None),
    }
}

/// `left` can stand for an SSH target that is no alias: it holds an `@`, or
/// it has the shape of a host name.
pub open spec fn is_raw_target(left: Seq<char>) -> bool {
    left.contains('@') || valid_hostname(left)
}

/// What the endpoint `spec` refers to in `store`.
///
/// With a colon, `spec` is cut at the first one. A left side that is a host
/// alias puts the right side on that host; any other left side that can be
/// an SSH target is taken as it is, and so is the right side; anything else
/// is an unknown host. Without a colon, `spec` is a path alias or a path.
pub open spec fn resolve(spec: Seq<char>, store: ConfigView) -> Resolution {
    if spec.contains(':') {
        let left = before_first(spec, ':');
        let right = after_first(spec, ':');
        if has_key(store.hosts, left) {
            resolve_on_host(right, left, store)
        } else if is_raw_target(left) {
            resolved(right, Some(left))
        } else {
            refused(ResolveErrorView::UnknownHost(left))
        }
    } else {
        resolve_bare(spec, store)
    }
}

/// The endpoint made of `host`, a colon and `rest`.
pub open spec fn endpoint(host: Seq<char>, rest: Seq<char>) -> Seq<char> {
    host + seq![':'] + rest
}

/// On a registered host alias, text after the colon that is no path alias
/// is taken as the path itself: `host:rest` resolves to `rest` on `host`.
///
/// A host name with a colon in it cannot be addressed in this way, since an
/// endpoint is cut at its first colon.
pub proof fn lemma_alias_host_with_plain_path(store: ConfigView, host: Seq<char>, rest: Seq<char>)
    requires
        has_key(store.hosts, host),
        !host.contains(':'),
        store.legacy_path(rest) is None,
    ensures
        resolve(endpoint(host, rest), store) == resolved(rest, Some(host)),
{
    lemma_split_of_join(host, ':', rest);
}

/// On a registered host alias, a path alias flagged remote resolves to its
/// stored path, not to its own name.
pub proof fn lemma_alias_host_with_remote_alias(
    store: ConfigView,
    host: Seq<char>,
    alias: Seq<char>,
    stored: Seq<char>,
)
    requires
        has_key(store.hosts, host),
        !host.contains(':'),
        store.legacy_path(alias) == Some(PathView { path: stored, is_remote: true }),
    ensures
        resolve(endpoint(host, alias), store) == resolved(stored, Some(host)),
{
    lemma_split_of_join(host, ':', alias);
}

/// On a registered host alias, a path alias flagged local is refused.
pub proof fn lemma_alias_host_with_local_alias(
    store: ConfigView,
    host: Seq<char>,
    alias: Seq<char>,
    stored: Seq<char>,
)
    requires
        has_key(store.hosts, host),
        !host.contains(':'),
        store.legacy_path(alias) == Some(PathView { path: stored, is_remote: false }),
    ensures
        resolve(endpoint(host, alias), store) == refused(ResolveErrorView::NotRemotePath(alias)),
{
    lemma_split_of_join(host, ':', alias);
}

/// A path alias flagged remote, given without a host, is refused.
pub proof fn lemma_remote_alias_without_host(store: ConfigView, alias: Seq<char>, stored: Seq<char>)
    requires
        !alias.contains(':'),
        store.legacy_path(alias) == Some(PathView { path: stored, is_remote: true }),
    ensures
        resolve(alias, store) == refused(ResolveErrorView::RemoteWithoutHost(alias)),
{
}

/// A path alias flagged local, given without a host, resolves to its stored
/// path on this machine.
pub proof fn lemma_local_alias_without_host(store: ConfigView, alias: Seq<char>, stored: Seq<char>)
    requires
        !alias.contains(':'),
        store.legacy_path(alias) == Some(PathView { path: stored, is_remote: false }),
    ensures
        resolve(alias, store) == resolved(stored, None),
{
}

/// A left side that is no host alias but can be an SSH target passes through
/// with the right side untouched, whatever the path tables hold.
pub proof fn lemma_raw_target_passes(store: ConfigView, left: Seq<char>, right: Seq<char>)
    requires
        !has_key(store.hosts, left),
        !left.contains(':'),
        is_raw_target(left),
    ensures
        resolve(endpoint(left, right), store) == resolved(right, Some(left)),
{
    lemma_split_of_join(left, ':', right);
}

/// A left side that is neither a host alias nor a possible SSH target is an
/// unknown host, and the error names it.
pub proof fn lemma_unknown_host(store: ConfigView, left: Seq<char>, right: Seq<char>)
    requires
        !has_key(store.hosts, left),
        !left.contains(':'),
        !is_raw_target(left),
    ensures
        resolve(endpoint(left, right), store) == refused(ResolveErrorView::UnknownHost(left)),
{
    lemma_split_of_join(left, ':', right);
}

/// Resolution reads the names of the host aliases and the unified path
/// table, and nothing else: the local and per-host path tables, and what a
/// host alias stands for, have no say.
pub proof fn lemma_resolution_reads_hosts_and_unified_table(
    spec: Seq<char>,
    one: ConfigView,
    other: ConfigView,
)
    requires
        forall|name: Seq<char>| has_key(one.hosts, name) == has_key(other.hosts, name),
        one.paths == other.paths,
    ensures
        resolve(spec, one) == resolve(spec, other),
{
}

/// The host of a resolution is what stands before the first colon, as it
/// was written; an endpoint without a colon resolves to a path on this
/// machine.
pub proof fn lemma_host_is_left_side(spec: Seq<char>, store: ConfigView)
    ensures
        match resolve(spec, store) {
            Ok((_, Some(host))) => spec.contains(':') && host == before_first(spec, ':'),
            Ok((_, None)) => !spec.contains(':'),
            Err(_) => true,
        },
{
}

/// Resolution has no memory: two results for the same endpoint and the same
/// store are the same result.
pub proof fn lemma_resolution_repeats(
    spec: Seq<char>,
    store: ConfigView,
    first: Resolution,
    second: Resolution,
)
    requires
        first == resolve(spec, store),
        second == resolve(spec, store),
    ensures
        first == second,
{
}

impl ResolveError {
    /// The token that the error is about.
    pub fn token(&self) -> (t: &str)
        ensures
            t@ == self@.token(),
    {
        match self {
            ResolveError::UnknownHost(t) => t.as_str(),
            ResolveError::NotRemotePath(t) => t.as_str(),
            ResolveError::RemoteWithoutHost(t) => t.as_str(),
        }
    }

    /// The text that reports the error. It quotes the token.
    pub fn message(&self) -> (text: String)
        ensures
            text@ == self@.message(),
    {
        match self {
            ResolveError::UnknownHost(t) => {
                let mut text = String::from_str("ホスト '");
                text.append(t.as_str());
                text.append("' が見つからず、有効なSSH接続文字列でもありません");
                text
            },
            ResolveError::NotRemotePath(t) => {
                let mut text = String::from_str("パス '");
                text.append(t.as_str());
                text.append("' はリモートパスではありません");
                text
            },
            ResolveError::RemoteWithoutHost(t) => {
                let mut text = String::from_str("パス '");
                text.append(t.as_str());
                text.append("' はリモートパスですが、ホストが指定されていません");
                text
            },
        }
    }
}

/// Resolves what stands after the colon against the unified path table, for
/// the registered host alias `host`.
fn resolve_for_host(right: &str, host: &str, config: &Config) -> (r: Result<
    (String, Option<String>),
    ResolveError,
>)
    ensures
        resolution_of(r) == resolve_on_host(right@, host@, config@),
{
    if let Some(table) = &config.paths {
        if let Some(entry) = table.get(right) {
            if !entry.is_remote {
                return Err(ResolveError::NotRemotePath(String::from_str(right)));
            }
            return Ok((entry.path.clone(), Some(String::from_str(host))));
        }
    }
    Ok((String::from_str(right), Some(String::from_str(host))))
}

/// Resolves an endpoint that holds no colon.
fn resolve_without_host(spec: &str, config: &Config) -> (r: Result<
    (String, Option<String>),
    ResolveError,
>)
    ensures
        resolution_of(r) == resolve_bare(spec@, config@),
{
    if let Some(table) = &config.paths {
        if let Some(entry) = table.get(spec) {
            if entry.is_remote {
                return Err(ResolveError::RemoteWithoutHost(String::from_str(spec)));
            }
            return Ok((entry.path.clone(), None));
        }
    }
    Ok((String::from_str(spec), None))
}

/// Resolves the endpoint `spec` against `config` to a path and, for a remote
/// endpoint, the host it is on.
///
/// The host that comes back is the text before the first colon, as written:
/// a host alias is not replaced by its connection here. The store is only
/// read.
pub fn parse_path_spec(spec: &str, config: &Config) -> (r: Result<
    (String, Option<String>),
    ResolveError,
>)
    ensures
        resolution_of(r) == resolve(spec@, config@),
{
    let chars = chars_of(spec);
    match find_char(&chars, ':') {
        Some(at) => {
            proof {
                lemma_first_at(spec@, ':', at as int);
            }
            let left = spec.substring_char(0, at);
            let right = spec.substring_char(at + 1, chars.len());
            if config.hosts.contains_key(left) {
                resolve_for_host(right, left, config)
            } else if contains_char(left, '@') || is_valid_hostname(left) {
                Ok((String::from_str(right), Some(String::from_str(left))))
            } else {
                Err(ResolveError::UnknownHost(String::from_str(left)))
            }
        },
        None => resolve_without_host(spec, config),
    }
}

} // verus!
