//! The alias store and the places on disk that belong to it.
//!
//! A store holds four independent tables: host aliases, the unified path
//! table of earlier stores (each entry flagged local or remote), local path
//! aliases, and remote path aliases grouped by host. A name may occur in more
//! than one of them.

use crate::table::{lookup, Entries, Table};
use vstd::prelude::*;
use vstd::string::*;

verus! {

/// The port of an SSH service where none is named.
pub const DEFAULT_PORT: u16 = 22;

/// A named SSH endpoint.
#[derive(Debug, Clone, PartialEq, Eq)]
pub struct Host {
    /// Where to connect, in the form `user@hostname`.
    pub connection: String,
    /// The port of the SSH service.
    pub port: u16,
    /// The private key to offer, if one is set.
    pub key_path: Option<String>,
}

/// A path alias of the unified table, which tells local from remote by a flag.
#[derive(Debug, Clone, PartialEq, Eq)]
pub struct Path {
    /// The path that the alias stands for.
    pub path: String,
    /// Whether the path is one on a remote host.
    pub is_remote: bool,
}

/// A path on this machine.
#[derive(Debug, Clone, PartialEq, Eq)]
pub struct LocalPath {
    /// The path that the alias stands for.
    pub path: String,
}

/// A path on one particular host.
#[derive(Debug, Clone, PartialEq, Eq)]
pub struct RemotePath {
    /// The path that the alias stands for.
    pub path: String,
}

/// The whole alias store.
#[derive(Debug, PartialEq, Eq)]
pub struct Config {
    /// Host aliases by name.
    pub hosts: Table<Host>,
    /// The unified path table of earlier stores, where the store has one.
    /// It is only ever read.
    pub paths: Option<Table<Path>>,
    /// Local path aliases by name.
    pub local_paths: Table<LocalPath>,
    /// Remote path aliases by host alias, then by name.
    pub host_paths: Table<Table<RemotePath>>,
}

/// The model of a [`Host`].
pub struct HostView {
    pub connection: Seq<char>,
    pub port: u16,
    pub key_path: Option<Seq<char>>,
}

/// The model of a [`Path`].
pub struct PathView {
    pub path: Seq<char>,
    pub is_remote: bool,
}

/// The model of a [`Config`]: each table as the sequence of its entries.
pub struct ConfigView {
    pub hosts: Entries<HostView>,
    pub paths: Option<Entries<PathView>>,
    pub local_paths: Entries<Seq<char>>,
    pub host_paths: Entries<Entries<Seq<char>>>,
}

/// The model of an optional string.
pub open spec fn text_of(s: Option<String>) -> Option<Seq<char>> {
    match s {
        Some(t) => Some(t@),
        None => None,
    }
}

/// The model of an optional string slice.
pub open spec fn slice_text_of(s: Option<&str>) -> Option<Seq<char>> {
    match s {
        Some(t) => Some(t@),
        None => None,
    }
}

impl View for Host {
    type V = HostView;

    open spec fn view(&self) -> HostView {
        HostView {
            connection: self.connection@,
            port: self.port,
            key_path: text_of(self.key_path),
        }
    }
}

impl View for Path {
    type V = PathView;

    open spec fn view(&self) -> PathView {
        PathView { path: self.path@, is_remote: self.is_remote }
    }
}

impl View for LocalPath {
    type V = Seq<char>;

    open spec fn view(&self) -> Seq<char> {
        self.path@
    }
}

impl View for RemotePath {
    type V = Seq<char>;

    open spec fn view(&self) -> Seq<char> {
        self.path@
    }
}

impl View for Config {
    type V = ConfigView;

    open spec fn view(&self) -> ConfigView {
        ConfigView {
            hosts: self.hosts@,
            paths: match self.paths {
                Some(t) => Some(t@),
                None => None,
            },
            local_paths: self.local_paths@,
            host_paths: self.host_paths@,
        }
    }
}

impl ConfigView {
    /// The store with nothing in it and no unified table.
    pub open spec fn empty() -> ConfigView {
        ConfigView {
            hosts: Seq::empty(),
            paths: None,
            local_paths: Seq::empty(),
            host_paths: Seq::empty(),
        }
    }

    /// The entry of the unified table named `name`, if the store has that
    /// table and the table has the name.
    pub open spec fn legacy_path(self, name: Seq<char>) -> Option<PathView> {
        match self.paths {
            Some(t) => lookup(t, name),
            None => None,
        }
    }
}

/// `path` begins with `~/`.
pub open spec fn starts_with_home(path: Seq<char>) -> bool {
    path.len() >= 2 && path[0] == '~' && path[1] == '/'
}

/// `name` appended to the directory `base` with `/` between them: a `name`
/// that begins with `/` stands alone, and no second `/` is put after a
/// `base` that is empty or ends in one.
pub open spec fn join_path(base: Seq<char>, name: Seq<char>) -> Seq<char> {
    if name.len() > 0 && name[0] == '/' {
        name
    } else if base.len() == 0 || base.last() == '/' {
        base + name
    } else {
        base + seq!['/'] + name
    }
}

/// `path` with a leading `~/` replaced by the home directory. A path without
/// it is its own expansion; one with it has none where no home is known.
pub open spec fn expanded(path: Seq<char>, home: Option<Seq<char>>) -> Option<Seq<char>> {
    if starts_with_home(path) {
        match home {
            Some(h) => Some(join_path(h, path.skip(2))),
            None => None,
        }
    } else {
        Some(path)
    }
}

/// The directory of the store below the home directory `home`.
pub open spec fn config_dir_of(home: Seq<char>) -> Seq<char> {
    join_path(join_path(home, ".config"@), "sshportal"@)
}

/// The file of the store below the home directory `home`.
pub open spec fn config_file_of(home: Seq<char>) -> Seq<char> {
    join_path(config_dir_of(home), "config.json"@)
}

/// The home directory of the current user as `dirs::home_dir` reports it,
/// with bytes that are no UTF-8 replaced as `to_string_lossy` does. Nothing
/// is claimed of the result: it depends on the environment of the process.
#[verifier::external_body]
pub(crate) fn home_dir() -> (home: Option<String>) {
    match dirs::home_dir() {
        Some(dir) => Some(dir.to_string_lossy().into_owned()),
        None => None,
    }
}

/// Tests whether `path` begins with `~/`.
pub fn begins_with_home(path: &str) -> (b: bool)
    ensures
        b == starts_with_home(path@),
{
    let n: usize = path.unicode_len();
    n >= 2 && path.get_char(0) == '~' && path.get_char(1) == '/'
}

/// Appends `name` to the directory `base`.
pub fn join(base: &str, name: &str) -> (joined: String)
    ensures
        joined@ == join_path(base@, name@),
{
    let name_len: usize = name.unicode_len();
    if name_len > 0 && name.get_char(0) == '/' {
        return String::from_str(name);
    }
    let base_len: usize = base.unicode_len();
    let mut joined = String::from_str(base);
    if !(base_len == 0 || base.get_char(base_len - 1) == '/') {
        proof {
            reveal_strlit("/");
        }
        joined.append("/");
    }
    joined.append(name);
    joined
}

impl Default for Config {
    /// The store with nothing in it and no unified table.
    fn default() -> (config: Config)
        ensures
            config@ == ConfigView::empty(),
    {
        Config {
            hosts: Table::new(),
            paths: None,
            local_paths: Table::new(),
            host_paths: Table::new(),
        }
    }
}

impl Config {
    /// The store to work with, given what was read from the store's file:
    /// `found` itself, or the empty store where there was no file. The flag
    /// says whether the store is new and has to be written.
    pub fn load(found: Option<Config>) -> (r: (Config, bool))
        ensures
            match found {
                Some(stored) => r.0 == stored && !r.1,
                None => r.0@ == ConfigView::empty() && r.1,
            },
    {
        match found {
            Some(stored) => (stored, false),
            None => (Config::default(), true),
        }
    }

    /// The directory of the store below the home directory `home`:
    /// `.config/sshportal` in it.
    pub fn config_dir_in(home: &str) -> (dir: String)
        ensures
            dir@ == config_dir_of(home@),
    {
        let config = join(home, ".config");
        join(config.as_str(), "sshportal")
    }

    /// The file of the store below the home directory `home`:
    /// `.config/sshportal/config.json` in it.
    pub fn config_file_in(home: &str) -> (file: String)
        ensures
            file@ == config_file_of(home@),
    {
        let dir = Config::config_dir_in(home);
        join(dir.as_str(), "config.json")
    }

    /// The directory of the store of the current user, or `None` where the
    /// user's home directory cannot be found.
    pub fn config_dir() -> (dir: Option<String>)
        ensures
            dir matches Some(d) ==> exists|home: Seq<char>| d@ == config_dir_of(home),
    {
        match home_dir() {
            Some(home) => Some(Config::config_dir_in(home.as_str())),
            None => None,
        }
    }

    /// The file of the store of the current user, or `None` where the user's
    /// home directory cannot be found.
    pub fn config_file() -> (file: Option<String>)
        ensures
            file matches Some(f) ==> exists|home: Seq<char>| f@ == config_file_of(home),
    {
        match home_dir() {
            Some(home) => Some(Config::config_file_in(home.as_str())),
            None => None,
        }
    }

    /// Expands a leading `~/` of `path` to the home directory `home`. Any
    /// other path comes back as it is. `None` means that the path needs a
    /// home directory and none was given.
    pub fn expand_path_with_home(path: &str, home: Option<&str>) -> (r: Option<String>)
        ensures
            text_of(r) == expanded(path@, slice_text_of(home)),
    {
        if begins_with_home(path) {
            match home {
                Some(h) => {
                    let n: usize = path.unicode_len();
                    let rest = path.substring_char(2, n);
                    Some(join(h, rest))
                },
                None => None,
            }
        } else {
            Some(String::from_str(path))
        }
    }

    /// Expands a leading `~/` of `path` to the home directory of the current
    /// user. A path without it comes back as it is, whatever the
    /// environment; one with it gives `None` where the home directory cannot
    /// be found.
    pub fn expand_path(path: &str) -> (r: Option<String>)
        ensures
            exists|home: Option<Seq<char>>| text_of(r) == expanded(path@, home),
            !starts_with_home(path@) ==> text_of(r) == Some(path@),
    {
        if begins_with_home(path) {
            match &home_dir() {
                Some(h) => Config::expand_path_with_home(path, Some(h.as_str())),
                None => Config::expand_path_with_home(path, None),
            }
        } else {
            Config::expand_path_with_home(path, None)
        }
    }
}

} // verus!
