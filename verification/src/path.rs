//! Path aliases: adding, removing and listing.
//!
//! New aliases go to the local table or to the table of one host. The
//! unified path table of earlier stores is listed, and never written.

use crate::config::{
    expanded, home_dir, slice_text_of, text_of, Config, ConfigView, LocalPath, Path, PathView,
    RemotePath,
};
use crate::host::RemoveOutcome;
use crate::table::{delete, has_key, lookup, put, Entries, Table};
use vstd::prelude::*;
use vstd::string::*;

verus! {

/// What became of a request to add a local path alias.
#[derive(Debug, Clone, Copy, PartialEq, Eq)]
pub enum AddPathOutcome {
    /// The alias is new and was added to the local table.
    Added,
    /// A local alias of that name is there already; nothing was changed.
    AlreadyExists,
    /// The path was given as a remote one without a host; nothing was
    /// changed. A remote path is registered for a host.
    HostRequired,
}

/// What became of a request to add a path alias for a host.
#[derive(Debug, Clone, Copy, PartialEq, Eq)]
pub enum AddHostPathOutcome {
    /// The alias is new for that host and was added.
    Added,
    /// There is no host alias of that name; nothing was changed.
    UnknownHost,
    /// The host has a path alias of that name already; nothing was changed.
    AlreadyExists,
}

/// The path aliases registered for `host`: none where the host has no group
/// yet.
pub open spec fn group_of(store: ConfigView, host: Seq<char>) -> Entries<Seq<char>> {
    match lookup(store.host_paths, host) {
        Some(group) => group,
        None => Seq::empty(),
    }
}

/// The store after a request to add the local path alias `name`: with the
/// alias as the last of the local table where the name is new there,
/// unchanged otherwise.
pub open spec fn add_local_path_store(store: ConfigView, name: Seq<char>, path: Seq<char>)
    -> ConfigView {
    if has_key(store.local_paths, name) {
        store
    } else {
        ConfigView { local_paths: store.local_paths.push((name, path)), ..store }
    }
}

/// What a request to add the path alias `path_name` for `host` comes to.
pub open spec fn add_host_path_outcome(store: ConfigView, host: Seq<char>, path_name: Seq<char>)
    -> AddHostPathOutcome {
    if !has_key(store.hosts, host) {
        AddHostPathOutcome::UnknownHost
    } else if has_key(group_of(store, host), path_name) {
        AddHostPathOutcome::AlreadyExists
    } else {
        AddHostPathOutcome::Added
    }
}

/// The store after a request to add the path alias `path_name` for `host`:
/// where it was added, the group of that host has it as its last entry, and
/// a host without a group has got one at the end of the groups.
pub open spec fn add_host_path_store(
    store: ConfigView,
    host: Seq<char>,
    path_name: Seq<char>,
    path: Seq<char>,
) -> ConfigView {
    if add_host_path_outcome(store, host, path_name) == AddHostPathOutcome::Added {
        ConfigView {
            host_paths: put(
                store.host_paths,
                host,
                group_of(store, host).push((path_name, path)),
            ),
            ..store
        }
    } else {
        store
    }
}

/// What a request to add a path alias without a host comes to.
pub open spec fn add_path_outcome(store: ConfigView, name: Seq<char>, is_remote: bool)
    -> AddPathOutcome {
    if is_remote {
        AddPathOutcome::HostRequired
    } else if has_key(store.local_paths, name) {
        AddPathOutcome::AlreadyExists
    } else {
        AddPathOutcome::Added
    }
}

/// The store after a request to add a path alias without a host.
pub open spec fn add_path_store(
    store: ConfigView,
    name: Seq<char>,
    path: Seq<char>,
    is_remote: bool,
) -> ConfigView {
    if is_remote {
        store
    } else {
        add_local_path_store(store, name, path)
    }
}

/// The store after a request to remove the local path alias `name`.
pub open spec fn remove_path_store(store: ConfigView, name: Seq<char>) -> ConfigView {
    ConfigView { local_paths: delete(store.local_paths, name), ..store }
}

/// Adds the local path alias `name` for `path`, which is stored as given. A
/// name that the local table has already is left as it is.
pub fn add_local_path(config: &mut Config, name: &str, path: &str) -> (outcome: AddPathOutcome)
    ensures
        outcome == add_path_outcome(old(config)@, name@, false),
        final(config)@ == add_local_path_store(old(config)@, name@, path@),
{
    if config.local_paths.contains_key(name) {
        return AddPathOutcome::AlreadyExists;
    }
    config.local_paths.insert(String::from_str(name), LocalPath { path: String::from_str(path) });
    AddPathOutcome::Added
}

/// Adds the path alias `path_name` for the host alias `host_name`.
///
/// The host must be registered. A name that the host has already is left as
/// it is. No other table is touched.
pub fn add_host_path(config: &mut Config, host_name: &str, path_name: &str, path: &str) -> (outcome:
    AddHostPathOutcome)
    ensures
        outcome == add_host_path_outcome(old(config)@, host_name@, path_name@),
        final(config)@ == add_host_path_store(old(config)@, host_name@, path_name@, path@),
{
    if !config.hosts.contains_key(host_name) {
        return AddHostPathOutcome::UnknownHost;
    }
    let entry = RemotePath { path: String::from_str(path) };
    match config.host_paths.find(host_name) {
        Some(at) => {
            if config.host_paths.value_at(at).contains_key(path_name) {
                return AddHostPathOutcome::AlreadyExists;
            }
            let ghost before = config@.host_paths;
            let mut group = config.host_paths.replace_at(at, Table::new());
            group.insert(String::from_str(path_name), entry);
            config.host_paths.replace_at(at, group);
            assert(config@.host_paths =~= put(
                before,
                host_name@,
                group_of(old(config)@, host_name@).push((path_name@, path@)),
            ));
        },
        None => {
            let mut group: Table<RemotePath> = Table::new();
            group.insert(String::from_str(path_name), entry);
            config.host_paths.insert(String::from_str(host_name), group);
        },
    }
    AddHostPathOutcome::Added
}

/// Adds a path alias that is given without a host.
///
/// A local path goes to the local table, as with [`add_local_path`]. A
/// remote path is refused, since it is registered for a host: see
/// [`add_host_path`]. The unified table of earlier stores is never written.
pub fn add_path(config: &mut Config, name: &str, path: &str, is_remote: bool) -> (outcome:
    AddPathOutcome)
    ensures
        outcome == add_path_outcome(old(config)@, name@, is_remote),
        final(config)@ == add_path_store(old(config)@, name@, path@, is_remote),
{
    if is_remote {
        AddPathOutcome::HostRequired
    } else {
        add_local_path(config, name, path)
    }
}

/// Removes the local path alias `name`. The other aliases keep their order.
/// The unified table of earlier stores is never written.
pub fn remove_path(config: &mut Config, name: &str) -> (outcome: RemoveOutcome)
    ensures
        outcome == if has_key(old(config)@.local_paths, name@) {
            RemoveOutcome::Removed
        } else {
            RemoveOutcome::NotFound
        },
        final(config)@ == remove_path_store(old(config)@, name@),
{
    match config.local_paths.remove(name) {
        Some(_) => RemoveOutcome::Removed,
        None => RemoveOutcome::NotFound,
    }
}

/// One line of the list of path aliases.
#[derive(Debug, Clone, PartialEq, Eq)]
pub enum PathLine {
    /// The heading above the local aliases.
    LocalHeading,
    /// One local alias, with its path expanded.
    LocalEntry { name: String, path: String },
    /// The heading above the aliases that belong to hosts.
    RemoteHeading,
    /// The host alias that the entries below it belong to.
    HostName { host: String },
    /// One alias of a host.
    RemoteEntry { name: String, path: String },
    /// The heading above the entries of the unified table.
    LegacyHeading,
    /// One entry of the unified table, a local path expanded.
    LegacyEntry { name: String, is_remote: bool, path: String },
    /// An empty line that ends a section.
    Blank,
    /// The store holds no path alias at all.
    NoPaths,
}

/// The model of a [`PathLine`].
pub enum PathLineView {
    LocalHeading,
    LocalEntry { name: Seq<char>, path: Seq<char> },
    RemoteHeading,
    HostName { host: Seq<char> },
    RemoteEntry { name: Seq<char>, path: Seq<char> },
    LegacyHeading,
    LegacyEntry { name: Seq<char>, is_remote: bool, path: Seq<char> },
    Blank,
    NoPaths,
}

impl View for PathLine {
    type V = PathLineView;

    open spec fn view(&self) -> PathLineView {
        match self {
            PathLine::LocalHeading => PathLineView::LocalHeading,
            PathLine::LocalEntry { name, path } => PathLineView::LocalEntry {
                name: name@,
                path: path@,
            },
            PathLine::RemoteHeading => PathLineView::RemoteHeading,
            PathLine::HostName { host } => PathLineView::HostName { host: host@ },
            PathLine::RemoteEntry { name, path } => PathLineView::RemoteEntry {
                name: name@,
                path: path@,
            },
            PathLine::LegacyHeading => PathLineView::LegacyHeading,
            PathLine::LegacyEntry { name, is_remote, path } => PathLineView::LegacyEntry {
                name: name@,
                is_remote: *is_remote,
                path: path@,
            },
            PathLine::Blank => PathLineView::Blank,
            PathLine::NoPaths => PathLineView::NoPaths,
        }
    }
}

/// The model of a list of path lines.
pub open spec fn path_lines_of(lines: Seq<PathLine>) -> Seq<PathLineView> {
    Seq::new(lines.len(), |i: int| lines[i]@)
}

/// The model of a list of path lines that may be missing.
pub open spec fn listing_of(r: Option<Vec<PathLine>>) -> Option<Seq<PathLineView>> {
    match r {
        Some(lines) => Some(path_lines_of(lines@)),
        None => None,
    }
}

/// The unified table of `store`, empty where the store has none.
pub open spec fn legacy_entries(store: ConfigView) -> Entries<PathView> {
    match store.paths {
        Some(t) => t,
        None => Seq::empty(),
    }
}

/// How the path of an entry of the unified table is shown: a local one
/// expanded, a remote one as it is.
pub open spec fn legacy_shown(entry: PathView, home: Option<Seq<char>>) -> Option<Seq<char>> {
    if entry.is_remote {
        Some(entry.path)
    } else {
        expanded(entry.path, home)
    }
}

/// Every path that the list shows expanded can be expanded with `home`.
pub open spec fn listable(store: ConfigView, home: Option<Seq<char>>) -> bool {
    &&& forall|i: int|
        0 <= i < store.local_paths.len() ==> expanded(
            (#[trigger] store.local_paths[i]).1,
            home,
        ) is Some
    &&& forall|i: int|
        0 <= i < legacy_entries(store).len() ==> legacy_shown(
            (#[trigger] legacy_entries(store)[i]).1,
            home,
        ) is Some
}

/// The lines for the local aliases, one for each in table order.
pub open spec fn local_entry_lines(entries: Entries<Seq<char>>, home: Option<Seq<char>>) -> Seq<
    PathLineView,
> {
    Seq::new(
        entries.len(),
        |i: int|
            PathLineView::LocalEntry { name: entries[i].0, path: expanded(entries[i].1, home)->0 },
    )
}

/// The lines for one host: its name, then one line for each of its aliases
/// in table order.
pub open spec fn group_lines(host: Seq<char>, group: Entries<Seq<char>>) -> Seq<PathLineView> {
    seq![PathLineView::HostName { host }] + Seq::new(
        group.len(),
        |j: int| PathLineView::RemoteEntry { name: group[j].0, path: group[j].1 },
    )
}

/// The lines for all hosts, host after host in table order.
pub open spec fn remote_entry_lines(groups: Entries<Entries<Seq<char>>>) -> Seq<PathLineView>
    decreases groups.len(),
{
    if groups.len() == 0 {
        Seq::empty()
    } else {
        remote_entry_lines(groups.drop_last()) + group_lines(groups.last().0, groups.last().1)
    }
}

/// The lines for the unified table, one for each entry in table order.
pub open spec fn legacy_entry_lines(entries: Entries<PathView>, home: Option<Seq<char>>) -> Seq<
    PathLineView,
> {
    Seq::new(
        entries.len(),
        |i: int|
            PathLineView::LegacyEntry {
                name: entries[i].0,
                is_remote: entries[i].1.is_remote,
                path: legacy_shown(entries[i].1, home)->0,
            },
    )
}

/// The section of the local aliases: nothing where there is none, else a
/// heading, the entries and an empty line.
pub open spec fn local_section(store: ConfigView, home: Option<Seq<char>>) -> Seq<PathLineView> {
    if store.local_paths.len() == 0 {
        Seq::empty()
    } else {
        seq![PathLineView::LocalHeading] + local_entry_lines(store.local_paths, home)
            + seq![PathLineView::Blank]
    }
}

/// The section of the hosts' aliases: nothing where no host has a group,
/// else a heading, the groups and an empty line.
pub open spec fn remote_section(store: ConfigView) -> Seq<PathLineView> {
    if store.host_paths.len() == 0 {
        Seq::empty()
    } else {
        seq![PathLineView::RemoteHeading] + remote_entry_lines(store.host_paths)
            + seq![PathLineView::Blank]
    }
}

/// The section of the unified table: nothing where it is missing or empty,
/// else a heading and the entries.
pub open spec fn legacy_section(store: ConfigView, home: Option<Seq<char>>) -> Seq<PathLineView> {
    if legacy_entries(store).len() == 0 {
        Seq::empty()
    } else {
        seq![PathLineView::LegacyHeading] + legacy_entry_lines(legacy_entries(store), home)
    }
}

/// The store holds no path alias in any table.
pub open spec fn no_paths(store: ConfigView) -> bool {
    store.local_paths.len() == 0 && store.host_paths.len() == 0 && legacy_entries(store).len()
        == 0
}

/// The list of path aliases: the local ones first, then those of the hosts,
/// host by host, then the unified table, each section under its own heading.
/// An entry is never merged with one of the same name from another table.
/// An empty store gives the one line that says so. There is no list where a
/// path to expand needs a home directory and `home` is `None`.
pub open spec fn path_listing(store: ConfigView, home: Option<Seq<char>>) -> Option<
    Seq<PathLineView>,
> {
    if !listable(store, home) {
        None
    } else if no_paths(store) {
        Some(seq![PathLineView::NoPaths])
    } else {
        Some(local_section(store, home) + remote_section(store) + legacy_section(store, home))
    }
}

/// How many path aliases the hosts have, all together.
pub open spec fn total_entries(groups: Entries<Entries<Seq<char>>>) -> nat
    decreases groups.len(),
{
    if groups.len() == 0 {
        0
    } else {
        total_entries(groups.drop_last()) + groups.last().1.len()
    }
}

/// The lines for all hosts are one for each host and one for each of its
/// aliases.
pub proof fn lemma_remote_lines_count(groups: Entries<Entries<Seq<char>>>)
    ensures
        remote_entry_lines(groups).len() == groups.len() + total_entries(groups),
    decreases groups.len(),
{
    if groups.len() > 0 {
        lemma_remote_lines_count(groups.drop_last());
    }
}

/// The list shows every entry of every table on a line of its own: nothing
/// is left out, and no two entries of one name are merged, whichever tables
/// they are in. Besides the entries a section has its heading, and each of
/// the first two an empty line at its end.
pub proof fn lemma_listing_shows_every_entry(store: ConfigView, home: Option<Seq<char>>)
    requires
        path_listing(store, home) is Some,
        !no_paths(store),
    ensures
        local_section(store, home).len() == if store.local_paths.len() == 0 {
            0
        } else {
            store.local_paths.len() + 2
        },
        remote_section(store).len() == if store.host_paths.len() == 0 {
            0
        } else {
            store.host_paths.len() + total_entries(store.host_paths) + 2
        },
        legacy_section(store, home).len() == if legacy_entries(store).len() == 0 {
            0
        } else {
            legacy_entries(store).len() + 1
        },
        path_listing(store, home)->0.len() == local_section(store, home).len() + remote_section(
            store,
        ).len() + legacy_section(store, home).len(),
{
    lemma_remote_lines_count(store.host_paths);
}

/// Where the paths can be listed without a home directory, the home
/// directory has no say in the list.
pub proof fn lemma_listing_without_home(store: ConfigView, home: Option<Seq<char>>)
    requires
        path_listing(store, None) is Some,
    ensures
        path_listing(store, home) == path_listing(store, None),
{
    assert(listable(store, None));
    assert(local_entry_lines(store.local_paths, home) =~= local_entry_lines(
        store.local_paths,
        None,
    ));
    assert(legacy_entry_lines(legacy_entries(store), home) =~= legacy_entry_lines(
        legacy_entries(store),
        None,
    ));
}

/// Appends the lines for the local aliases to `lines`, or gives up at the
/// first path that cannot be expanded.
fn push_local_lines(lines: &mut Vec<PathLine>, table: &Table<LocalPath>, home: Option<&str>) -> (ok:
    bool)
    ensures
        ok == (forall|i: int|
            0 <= i < table@.len() ==> expanded((#[trigger] table@[i]).1, slice_text_of(home))
                is Some),
        ok ==> path_lines_of(final(lines)@) == path_lines_of(old(lines)@) + local_entry_lines(
            table@,
            slice_text_of(home),
        ),
{
    let n: usize = table.len();
    let ghost start = path_lines_of(lines@);
    let ghost h = slice_text_of(home);
    let mut i: usize = 0;
    while i < n
        invariant
            n == table@.len(),
            i <= n,
            h == slice_text_of(home),
            forall|j: int| 0 <= j < i ==> expanded((#[trigger] table@[j]).1, h) is Some,
            path_lines_of(lines@) == start + local_entry_lines(table@, h).take(i as int),
        decreases n - i,
    {
        let name = table.key_at(i);
        let entry = table.value_at(i);
        match Config::expand_path_with_home(entry.path.as_str(), home) {
            Some(path) => {
                push_line(lines, PathLine::LocalEntry { name: String::from_str(name), path });
            },
            None => {
                return false;
            },
        }
        i += 1;
    }
    true
}

/// Appends the lines for one host to `lines`.
fn push_group_lines(lines: &mut Vec<PathLine>, host: &str, group: &Table<RemotePath>)
    ensures
        path_lines_of(final(lines)@) == path_lines_of(old(lines)@) + group_lines(host@, group@),
{
    let ghost start = path_lines_of(lines@);
    push_line(lines, PathLine::HostName { host: String::from_str(host) });
    let n: usize = group.len();
    let mut i: usize = 0;
    while i < n
        invariant
            n == group@.len(),
            i <= n,
            path_lines_of(lines@) == start + group_lines(host@, group@).take(i as int + 1),
        decreases n - i,
    {
        push_line(
            lines,
            PathLine::RemoteEntry {
                name: String::from_str(group.key_at(i)),
                path: group.value_at(i).path.clone(),
            },
        );
        i += 1;
    }
}

/// Appends the lines for all hosts to `lines`.
fn push_remote_lines(lines: &mut Vec<PathLine>, groups: &Table<Table<RemotePath>>)
    ensures
        path_lines_of(final(lines)@) == path_lines_of(old(lines)@) + remote_entry_lines(groups@),
{
    let ghost start = path_lines_of(lines@);
    let n: usize = groups.len();
    let mut i: usize = 0;
    while i < n
        invariant
            n == groups@.len(),
            i <= n,
            path_lines_of(lines@) == start + remote_entry_lines(groups@.take(i as int)),
        decreases n - i,
    {
        push_group_lines(lines, groups.key_at(i), groups.value_at(i));
        assert(groups@.take(i as int + 1).drop_last() =~= groups@.take(i as int));
        i += 1;
    }
    assert(groups@.take(n as int) =~= groups@);
}

/// Appends the lines for the unified table to `lines`, or gives up at the
/// first path that cannot be expanded.
fn push_legacy_lines(lines: &mut Vec<PathLine>, table: &Table<Path>, home: Option<&str>) -> (ok:
    bool)
    ensures
        ok == (forall|i: int|
            0 <= i < table@.len() ==> legacy_shown((#[trigger] table@[i]).1, slice_text_of(home))
                is Some),
        ok ==> path_lines_of(final(lines)@) == path_lines_of(old(lines)@) + legacy_entry_lines(
            table@,
            slice_text_of(home),
        ),
{
    let n: usize = table.len();
    let ghost start = path_lines_of(lines@);
    let ghost h = slice_text_of(home);
    let mut i: usize = 0;
    while i < n
        invariant
            n == table@.len(),
            i <= n,
            h == slice_text_of(home),
            forall|j: int| 0 <= j < i ==> legacy_shown((#[trigger] table@[j]).1, h) is Some,
            path_lines_of(lines@) == start + legacy_entry_lines(table@, h).take(i as int),
        decreases n - i,
    {
        let name = table.key_at(i);
        let entry = table.value_at(i);
        let shown = if entry.is_remote {
            Some(entry.path.clone())
        } else {
            Config::expand_path_with_home(entry.path.as_str(), home)
        };
        match shown {
            Some(path) => {
                push_line(
                    lines,
                    PathLine::LegacyEntry {
                        name: String::from_str(name),
                        is_remote: entry.is_remote,
                        path,
                    },
                );
            },
            None => {
                return false;
            },
        }
        i += 1;
    }
    true
}

/// Appends one line to `lines`.
fn push_line(lines: &mut Vec<PathLine>, line: PathLine)
    ensures
        path_lines_of(final(lines)@) == path_lines_of(old(lines)@).push(line@),
{
    lines.push(line);
}

/// Lists the path aliases of all three tables as the lines to show, with
/// the home directory given by the caller. `None` means that a path to
/// expand begins with `~/` and `home` is `None`.
pub fn list_paths_with_home(config: &Config, home: Option<&str>) -> (r: Option<Vec<PathLine>>)
    ensures
        listing_of(r) == path_listing(config@, slice_text_of(home)),
{
    let mut lines: Vec<PathLine> = Vec::new();
    if !config.local_paths.is_empty() {
        push_line(&mut lines, PathLine::LocalHeading);
        if !push_local_lines(&mut lines, &config.local_paths, home) {
            return None;
        }
        push_line(&mut lines, PathLine::Blank);
    }
    if !config.host_paths.is_empty() {
        push_line(&mut lines, PathLine::RemoteHeading);
        push_remote_lines(&mut lines, &config.host_paths);
        push_line(&mut lines, PathLine::Blank);
    }
    let mut legacy_empty = true;
    if let Some(table) = &config.paths {
        if !table.is_empty() {
            legacy_empty = false;
            push_line(&mut lines, PathLine::LegacyHeading);
            if !push_legacy_lines(&mut lines, table, home) {
                return None;
            }
        }
    }
    if config.local_paths.is_empty() && config.host_paths.is_empty() && legacy_empty {
        push_line(&mut lines, PathLine::NoPaths);
    }
    Some(lines)
}

/// Lists the path aliases of all three tables as the lines to show, with
/// the home directory of the current user.
///
/// What comes back is what [`list_paths_with_home`] gives for the home directory
/// that the environment reports. Where no path to expand begins with `~/`,
/// the environment has no say.
pub fn list_paths_new(config: &Config) -> (r: Option<Vec<PathLine>>)
    ensures
        exists|home: Option<Seq<char>>| listing_of(r) == #[trigger] path_listing(config@, home),
        path_listing(config@, None) is Some ==> listing_of(r) == path_listing(config@, None),
{
    let home = home_dir();
    let r = match &home {
        Some(h) => list_paths_with_home(config, Some(h.as_str())),
        None => list_paths_with_home(config, None),
    };
    proof {
        if path_listing(config@, None) is Some {
            lemma_listing_without_home(config@, text_of(home));
        }
    }
    r
}

} // verus!
