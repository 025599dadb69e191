//! Host aliases: adding, removing, listing, and the `ssh` call that connects
//! to one.
//!
//! Every operation takes the store as a value and says in its result what it
//! did. Reading and writing the store's file, printing and running `ssh` are
//! left to the caller.

use crate::config::{
    expanded, home_dir, slice_text_of, text_of, Config, ConfigView, Host, HostView,
};
use crate::invocation::{no_texts, push_text, Invocation, InvocationView};
use crate::table::{delete, distinct_keys, has_key, lemma_delete, lemma_put, lookup, Entries};
use crate::text::{decimal, decimal_text};
use vstd::prelude::*;
use vstd::string::*;

verus! {

/// What became of a request to add a host alias.
#[derive(Debug, Clone, Copy, PartialEq, Eq)]
pub enum AddHostOutcome {
    /// The alias is new and was added.
    Added,
    /// An alias of that name is there already; nothing was changed.
    AlreadyExists,
    /// The key path begins with `~/` and no home directory is known; nothing
    /// was changed.
    HomeUnknown,
}

/// What became of a request to remove an alias.
#[derive(Debug, Clone, Copy, PartialEq, Eq)]
pub enum RemoveOutcome {
    /// The alias was there and was removed.
    Removed,
    /// There is no alias of that name; nothing was changed.
    NotFound,
}

/// One line of the list of hosts.
#[derive(Debug, Clone, PartialEq, Eq)]
pub enum HostLine {
    /// The store holds no host alias.
    NoHosts,
    /// The heading above the entries.
    Heading,
    /// One host alias.
    Entry {
        /// The alias.
        name: String,
        /// The connection and the port, as `connection:port`.
        target: String,
        /// ` (key: path)` where the alias has a key, else nothing.
        key_note: String,
    },
}

/// The model of a [`HostLine`].
pub enum HostLineView {
    NoHosts,
    Heading,
    Entry { name: Seq<char>, target: Seq<char>, key_note: Seq<char> },
}

impl View for HostLine {
    type V = HostLineView;

    open spec fn view(&self) -> HostLineView {
        match self {
            HostLine::NoHosts => HostLineView::NoHosts,
            HostLine::Heading => HostLineView::Heading,
            HostLine::Entry { name, target, key_note } => HostLineView::Entry {
                name: name@,
                target: target@,
                key_note: key_note@,
            },
        }
    }
}

/// The model of a list of host lines.
pub open spec fn host_lines_of(lines: Seq<HostLine>) -> Seq<HostLineView> {
    Seq::new(lines.len(), |i: int| lines[i]@)
}

/// The key path to store for the key path given: its expansion.
pub open spec fn stored_key(key_path: Option<Seq<char>>, home: Option<Seq<char>>) -> Option<
    Seq<char>,
> {
    match key_path {
        Some(k) => expanded(k, home),
        None => None,
    }
}

/// What a request to add the host alias `name` comes to.
pub open spec fn add_host_outcome(
    store: ConfigView,
    name: Seq<char>,
    key_path: Option<Seq<char>>,
    home: Option<Seq<char>>,
) -> AddHostOutcome {
    if has_key(store.hosts, name) {
        AddHostOutcome::AlreadyExists
    } else if key_path is Some && stored_key(key_path, home) is None {
        AddHostOutcome::HomeUnknown
    } else {
        AddHostOutcome::Added
    }
}

/// The store after a request to add the host alias `name`: with the new
/// alias as the last of the host table where it was added, unchanged
/// otherwise.
pub open spec fn add_host_store(
    store: ConfigView,
    name: Seq<char>,
    connection: Seq<char>,
    port: u16,
    key_path: Option<Seq<char>>,
    home: Option<Seq<char>>,
) -> ConfigView {
    if add_host_outcome(store, name, key_path, home) == AddHostOutcome::Added {
        ConfigView {
            hosts: store.hosts.push(
                (name, HostView { connection, port, key_path: stored_key(key_path, home) }),
            ),
            ..store
        }
    } else {
        store
    }
}

/// The store after a request to remove the host alias `name`. The paths
/// registered for that host stay.
pub open spec fn remove_host_store(store: ConfigView, name: Seq<char>) -> ConfigView {
    ConfigView { hosts: delete(store.hosts, name), ..store }
}

/// The line of the list of hosts for one alias.
pub open spec fn host_entry_line(name: Seq<char>, host: HostView) -> HostLineView {
    HostLineView::Entry {
        name,
        target: host.connection + seq![':'] + decimal(host.port as nat),
        key_note: match host.key_path {
            Some(k) => " (key: "@ + k + ")"@,
            None => Seq::empty(),
        },
    }
}

/// The list of hosts: one line that says so where there is none, else a
/// heading and one line for each alias in table order.
pub open spec fn host_listing(hosts: Entries<HostView>) -> Seq<HostLineView> {
    if hosts.len() == 0 {
        seq![HostLineView::NoHosts]
    } else {
        seq![HostLineView::Heading] + Seq::new(
            hosts.len(),
            |i: int| host_entry_line(hosts[i].0, hosts[i].1),
        )
    }
}

/// The arguments of the `ssh` call that connects to `host`: the connection,
/// `-p` and the port, then `-i` and the key where the alias has one.
pub open spec fn ssh_args(host: HostView) -> Seq<Seq<char>> {
    let head = seq![host.connection, "-p"@, decimal(host.port as nat)];
    match host.key_path {
        Some(k) => head + seq!["-i"@, k],
        None => head,
    }
}

/// The `ssh` call that connects to the host alias `name`, where there is
/// such an alias.
pub open spec fn connect_plan(store: ConfigView, name: Seq<char>) -> Option<InvocationView> {
    match lookup(store.hosts, name) {
        Some(host) => Some(InvocationView { program: "ssh"@, args: ssh_args(host) }),
        None => None,
    }
}

/// Where a host alias can be added without a home directory, the home
/// directory has no say in what is added.
pub proof fn lemma_add_host_without_home(
    store: ConfigView,
    name: Seq<char>,
    connection: Seq<char>,
    port: u16,
    key_path: Option<Seq<char>>,
    home: Option<Seq<char>>,
)
    requires
        add_host_outcome(store, name, key_path, None) != AddHostOutcome::HomeUnknown,
    ensures
        add_host_outcome(store, name, key_path, home) == add_host_outcome(
            store,
            name,
            key_path,
            None,
        ),
        add_host_store(store, name, connection, port, key_path, home) == add_host_store(
            store,
            name,
            connection,
            port,
            key_path,
            None,
        ),
{
}

/// A host alias that was added is found under its name with what was given,
/// and every other name finds what it found before.
pub proof fn lemma_added_host_is_found(
    store: ConfigView,
    name: Seq<char>,
    connection: Seq<char>,
    port: u16,
    key_path: Option<Seq<char>>,
    home: Option<Seq<char>>,
)
    requires
        distinct_keys(store.hosts),
        add_host_outcome(store, name, key_path, home) == AddHostOutcome::Added,
    ensures
        distinct_keys(add_host_store(store, name, connection, port, key_path, home).hosts),
        lookup(add_host_store(store, name, connection, port, key_path, home).hosts, name) == Some(
            HostView { connection, port, key_path: stored_key(key_path, home) },
        ),
        forall|other: Seq<char>|
            other != name ==> #[trigger] lookup(
                add_host_store(store, name, connection, port, key_path, home).hosts,
                other,
            ) == lookup(store.hosts, other),
{
    lemma_put(
        store.hosts,
        name,
        HostView { connection, port, key_path: stored_key(key_path, home) },
    );
}

/// A host alias that was removed is found no more, and every other name
/// finds what it found before.
pub proof fn lemma_removed_host_is_gone(store: ConfigView, name: Seq<char>)
    requires
        distinct_keys(store.hosts),
    ensures
        distinct_keys(remove_host_store(store, name).hosts),
        lookup(remove_host_store(store, name).hosts, name) is None,
        forall|other: Seq<char>|
            other != name ==> #[trigger] lookup(remove_host_store(store, name).hosts, other)
                == lookup(store.hosts, other),
{
    lemma_delete(store.hosts, name);
}

/// Adds the host alias `name`, with the home directory given by the caller.
///
/// A name that is taken is left as it is. A key path that begins with `~/`
/// is stored expanded, and refused where `home` is `None`.
pub fn add_host_with_home(
    config: &mut Config,
    name: &str,
    connection: &str,
    port: u16,
    key_path: Option<&str>,
    home: Option<&str>,
) -> (outcome: AddHostOutcome)
    ensures
        outcome == add_host_outcome(
            old(config)@,
            name@,
            slice_text_of(key_path),
            slice_text_of(home),
        ),
        final(config)@ == add_host_store(
            old(config)@,
            name@,
            connection@,
            port,
            slice_text_of(key_path),
            slice_text_of(home),
        ),
{
    if config.hosts.contains_key(name) {
        return AddHostOutcome::AlreadyExists;
    }
    let key: Option<String> = match key_path {
        Some(k) => match Config::expand_path_with_home(k, home) {
            Some(e) => Some(e),
            None => {
                return AddHostOutcome::HomeUnknown;
            },
        },
        None => None,
    };
    let host = Host { connection: String::from_str(connection), port, key_path: key };
    config.hosts.insert(String::from_str(name), host);
    AddHostOutcome::Added
}

/// Adds the host alias `name`, with the home directory of the current user.
///
/// What comes back is what [`add_host_with_home`] gives for the home directory
/// that the environment reports. Where the name is taken, no key path is
/// given, or one that does not begin with `~/`, the environment has no say.
pub fn add_host(
    config: &mut Config,
    name: &str,
    connection: &str,
    port: u16,
    key_path: Option<&str>,
) -> (outcome: AddHostOutcome)
    ensures
        exists|home: Option<Seq<char>>|
            {
                &&& outcome == #[trigger] add_host_outcome(
                    old(config)@,
                    name@,
                    slice_text_of(key_path),
                    home,
                )
                &&& final(config)@ == add_host_store(
                    old(config)@,
                    name@,
                    connection@,
                    port,
                    slice_text_of(key_path),
                    home,
                )
            },
        add_host_outcome(old(config)@, name@, slice_text_of(key_path), None)
            != AddHostOutcome::HomeUnknown ==> {
            &&& outcome == add_host_outcome(old(config)@, name@, slice_text_of(key_path), None)
            &&& final(config)@ == add_host_store(
                old(config)@,
                name@,
                connection@,
                port,
                slice_text_of(key_path),
                None,
            )
        },
{
    let home = home_dir();
    let outcome = match &home {
        Some(h) => add_host_with_home(config, name, connection, port, key_path, Some(h.as_str())),
        None => add_host_with_home(config, name, connection, port, key_path, None),
    };
    proof {
        if add_host_outcome(old(config)@, name@, slice_text_of(key_path), None)
            != AddHostOutcome::HomeUnknown {
            lemma_add_host_without_home(
                old(config)@,
                name@,
                connection@,
                port,
                slice_text_of(key_path),
                text_of(home),
            );
        }
    }
    outcome
}

/// Removes the host alias `name`. The other aliases keep their order, and
/// the paths registered for the host stay.
pub fn remove_host(config: &mut Config, name: &str) -> (outcome: RemoveOutcome)
    ensures
        outcome == if has_key(old(config)@.hosts, name@) {
            RemoveOutcome::Removed
        } else {
            RemoveOutcome::NotFound
        },
        final(config)@ == remove_host_store(old(config)@, name@),
{
    match config.hosts.remove(name) {
        Some(_) => RemoveOutcome::Removed,
        None => RemoveOutcome::NotFound,
    }
}

/// The line of the list of hosts for the alias `name`.
fn host_line(name: &str, host: &Host) -> (line: HostLine)
    ensures
        line@ == host_entry_line(name@, host@),
{
    let mut target = host.connection.clone();
    proof {
        reveal_strlit(":");
    }
    target.append(":");
    target.append(decimal_text(host.port as u32).as_str());
    assert(target@ =~= host@.connection + seq![':'] + decimal(host.port as nat));
    let key_note = match &host.key_path {
        Some(k) => {
            let mut note = String::from_str(" (key: ");
            note.append(k.as_str());
            note.append(")");
            note
        },
        None => String::new(),
    };
    HostLine::Entry { name: String::from_str(name), target, key_note }
}

/// Lists the host aliases in table order, as the lines to show.
pub fn list_hosts(config: &Config) -> (lines: Vec<HostLine>)
    ensures
        host_lines_of(lines@) == host_listing(config@.hosts),
{
    let mut lines: Vec<HostLine> = Vec::new();
    let n: usize = config.hosts.len();
    if n == 0 {
        lines.push(HostLine::NoHosts);
        return lines;
    }
    lines.push(HostLine::Heading);
    let ghost hosts = config@.hosts;
    let mut i: usize = 0;
    while i < n
        invariant
            hosts == config@.hosts,
            n == hosts.len(),
            i <= n,
            lines@.len() == i + 1,
            lines@[0]@ == HostLineView::Heading,
            forall|j: int| 0 <= j < i ==> (#[trigger] lines@[j + 1])@ == host_entry_line(
                hosts[j].0,
                hosts[j].1,
            ),
        decreases n - i,
    {
        let line = host_line(config.hosts.key_at(i), config.hosts.value_at(i));
        lines.push(line);
        i += 1;
    }
    assert(host_lines_of(lines@) =~= host_listing(hosts)) by {
        assert forall|k: int| 0 <= k < lines@.len() implies host_lines_of(lines@)[k]
            == host_listing(hosts)[k] by {
            if k > 0 {
                assert(lines@[(k - 1) + 1]@ == host_entry_line(hosts[k - 1].0, hosts[k - 1].1));
            }
        }
    }
    lines
}

/// The arguments of the `ssh` call that connects to `host`.
fn ssh_arguments(host: &Host) -> (args: Vec<String>)
    ensures
        crate::invocation::texts_of(args@) == ssh_args(host@),
{
    let mut args = no_texts();
    push_text(&mut args, host.connection.clone());
    push_text(&mut args, String::from_str("-p"));
    push_text(&mut args, decimal_text(host.port as u32));
    if let Some(k) = &host.key_path {
        push_text(&mut args, String::from_str("-i"));
        push_text(&mut args, k.clone());
    }
    args
}

/// The `ssh` call that connects to the host alias `name`, or `None` where
/// there is no such alias.
pub fn connect_host(config: &Config, name: &str) -> (plan: Option<Invocation>)
    ensures
        match plan {
            Some(call) => connect_plan(config@, name@) == Some(call@),
            None => connect_plan(config@, name@) is None,
        },
{
    match config.hosts.get(name) {
        Some(host) => Some(
            Invocation { program: String::from_str("ssh"), args: ssh_arguments(host) },
        ),
        None => None,
    }
}

} // verus!
