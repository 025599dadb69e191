//! The question-and-answer dialogs that add a host alias or a path alias.
//!
//! A dialog is a state machine. The caller asks the question that belongs to
//! the state, reads one line, and hands state and line to the step function,
//! which answers with the next state to ask for, with the reason to stop, or
//! with the alias to add. Every answer is trimmed of white space first.

use crate::config::{text_of, Config, ConfigView, DEFAULT_PORT};
use crate::table::has_key;
use crate::text::{
    lowercase_of, parse_number, parsed_number, same_text, to_lowercase, trim, trimmed,
};
use vstd::prelude::*;
use vstd::string::*;

verus! {

/// Where the dialog that adds a host alias stands: what is known so far, and
/// so which question is next.
#[derive(Debug, Clone, PartialEq, Eq)]
pub enum HostDialog {
    /// Next: the name of the alias.
    Name,
    /// Next: the connection, as `user@hostname`.
    Connection { name: String },
    /// Next: the port; an empty answer means the default.
    Port { name: String, connection: String },
    /// Next: the key path; an empty answer means none.
    Key { name: String, connection: String, port: u16 },
    /// Next: whether to add what was entered.
    Confirm { name: String, connection: String, port: u16, key_path: Option<String> },
}

/// Why the dialog that adds a host alias ended without an alias to add.
#[derive(Debug, Clone, PartialEq, Eq)]
pub enum HostStop {
    /// No name was entered.
    NameMissing,
    /// The name entered is taken.
    AlreadyExists { name: String },
    /// No connection was entered.
    ConnectionMissing,
    /// What was entered as the port is no number from 0 to 65535.
    InvalidPort,
    /// The last question was not answered with `y` or `yes`.
    Cancelled,
}

/// What follows an answer in the dialog that adds a host alias.
#[derive(Debug, Clone, PartialEq, Eq)]
pub enum HostTurn {
    /// Go on with this state.
    Ask(HostDialog),
    /// End the dialog for this reason.
    Stop(HostStop),
    /// End the dialog and add this alias.
    Add { name: String, connection: String, port: u16, key_path: Option<String> },
}

/// The model of a [`HostDialog`].
pub enum HostDialogView {
    Name,
    Connection { name: Seq<char> },
    Port { name: Seq<char>, connection: Seq<char> },
    Key { name: Seq<char>, connection: Seq<char>, port: u16 },
    Confirm { name: Seq<char>, connection: Seq<char>, port: u16, key_path: Option<Seq<char>> },
}

/// The model of a [`HostStop`].
pub enum HostStopView {
    NameMissing,
    AlreadyExists { name: Seq<char> },
    ConnectionMissing,
    InvalidPort,
    Cancelled,
}

/// The model of a [`HostTurn`].
pub enum HostTurnView {
    Ask(HostDialogView),
    Stop(HostStopView),
    Add { name: Seq<char>, connection: Seq<char>, port: u16, key_path: Option<Seq<char>> },
}

impl View for HostDialog {
    type V = HostDialogView;

    open spec fn view(&self) -> HostDialogView {
        match self {
            HostDialog::Name => HostDialogView::Name,
            HostDialog::Connection { name } => HostDialogView::Connection { name: name@ },
            HostDialog::Port { name, connection } => HostDialogView::Port {
                name: name@,
                connection: connection@,
            },
            HostDialog::Key { name, connection, port } => HostDialogView::Key {
                name: name@,
                connection: connection@,
                port: *port,
            },
            HostDialog::Confirm { name, connection, port, key_path } => HostDialogView::Confirm {
                name: name@,
                connection: connection@,
                port: *port,
                key_path: text_of(*key_path),
            },
        }
    }
}

impl View for HostStop {
    type V = HostStopView;

    open spec fn view(&self) -> HostStopView {
        match self {
            HostStop::NameMissing => HostStopView::NameMissing,
            HostStop::AlreadyExists { name } => HostStopView::AlreadyExists { name: name@ },
            HostStop::ConnectionMissing => HostStopView::ConnectionMissing,
            HostStop::InvalidPort => HostStopView::InvalidPort,
            HostStop::Cancelled => HostStopView::Cancelled,
        }
    }
}

impl View for HostTurn {
    type V = HostTurnView;

    open spec fn view(&self) -> HostTurnView {
        match self {
            HostTurn::Ask(state) => HostTurnView::Ask(state@),
            HostTurn::Stop(reason) => HostTurnView::Stop(reason@),
            HostTurn::Add { name, connection, port, key_path } => HostTurnView::Add {
                name: name@,
                connection: connection@,
                port: *port,
                key_path: text_of(*key_path),
            },
        }
    }
}

/// Where the dialog that adds a path alias stands.
#[derive(Debug, Clone, PartialEq, Eq)]
pub enum PathDialog {
    /// Next: the kind of path, `1` for local and `2` for remote.
    Kind,
    /// Next: the name of the local alias.
    LocalName,
    /// Next: the local path.
    LocalPath { name: String },
    /// Next: whether to add the local alias.
    LocalConfirm { name: String, path: String },
    /// Next: the host alias that the path belongs to.
    RemoteHost,
    /// Next: the name of the alias.
    RemoteName { host: String },
    /// Next: the remote path.
    RemotePath { host: String, name: String },
    /// Next: whether to add the alias for the host.
    RemoteConfirm { host: String, name: String, path: String },
}

/// Why the dialog that adds a path alias ended without an alias to add.
#[derive(Debug, Clone, PartialEq, Eq)]
pub enum PathStop {
    /// The kind was answered with neither `1` nor `2`.
    InvalidChoice,
    /// A remote path was chosen, and the store holds no host alias.
    NoHosts,
    /// The host entered is no host alias.
    UnknownHost { host: String },
    /// No name was entered.
    NameMissing,
    /// No path was entered.
    PathMissing,
    /// The last question was not answered with `y` or `yes`.
    Cancelled,
}

/// What follows an answer in the dialog that adds a path alias.
#[derive(Debug, Clone, PartialEq, Eq)]
pub enum PathTurn {
    /// Go on with this state.
    Ask(PathDialog),
    /// End the dialog for this reason.
    Stop(PathStop),
    /// End the dialog and add this local alias.
    AddLocal { name: String, path: String },
    /// End the dialog and add this alias for the host.
    AddRemote { host: String, name: String, path: String },
}

/// The model of a [`PathDialog`].
pub enum PathDialogView {
    Kind,
    LocalName,
    LocalPath { name: Seq<char> },
    LocalConfirm { name: Seq<char>, path: Seq<char> },
    RemoteHost,
    RemoteName { host: Seq<char> },
    RemotePath { host: Seq<char>, name: Seq<char> },
    RemoteConfirm { host: Seq<char>, name: Seq<char>, path: Seq<char> },
}

/// The model of a [`PathStop`].
pub enum PathStopView {
    InvalidChoice,
    NoHosts,
    UnknownHost { host: Seq<char> },
    NameMissing,
    PathMissing,
    Cancelled,
}

/// The model of a [`PathTurn`].
pub enum PathTurnView {
    Ask(PathDialogView),
    Stop(PathStopView),
    AddLocal { name: Seq<char>, path: Seq<char> },
    AddRemote { host: Seq<char>, name: Seq<char>, path: Seq<char> },
}

impl View for PathDialog {
    type V = PathDialogView;

    open spec fn view(&self) -> PathDialogView {
        match self {
            PathDialog::Kind => PathDialogView::Kind,
            PathDialog::LocalName => PathDialogView::LocalName,
            PathDialog::LocalPath { name } => PathDialogView::LocalPath { name: name@ },
            PathDialog::LocalConfirm { name, path } => PathDialogView::LocalConfirm {
                name: name@,
                path: path@,
            },
            PathDialog::RemoteHost => PathDialogView::RemoteHost,
            PathDialog::RemoteName { host } => PathDialogView::RemoteName { host: host@ },
            PathDialog::RemotePath { host, name } => PathDialogView::RemotePath {
                host: host@,
                name: name@,
            },
            PathDialog::RemoteConfirm { host, name, path } => PathDialogView::RemoteConfirm {
                host: host@,
                name: name@,
                path: path@,
            },
        }
    }
}

impl View for PathStop {
    type V = PathStopView;

    open spec fn view(&self) -> PathStopView {
        match self {
            PathStop::InvalidChoice => PathStopView::InvalidChoice,
            PathStop::NoHosts => PathStopView::NoHosts,
            PathStop::UnknownHost { host } => PathStopView::UnknownHost { host: host@ },
            PathStop::NameMissing => PathStopView::NameMissing,
            PathStop::PathMissing => PathStopView::PathMissing,
            PathStop::Cancelled => PathStopView::Cancelled,
        }
    }
}

impl View for PathTurn {
    type V = PathTurnView;

    open spec fn view(&self) -> PathTurnView {
        match self {
            PathTurn::Ask(state) => PathTurnView::Ask(state@),
            PathTurn::Stop(reason) => PathTurnView::Stop(reason@),
            PathTurn::AddLocal { name, path } => PathTurnView::AddLocal {
                name: name@,
                path: path@,
            },
            PathTurn::AddRemote { host, name, path } => PathTurnView::AddRemote {
                host: host@,
                name: name@,
                path: path@,
            },
        }
    }
}

/// `lower` is one of the two words that mean yes: `y` and `yes`.
pub open spec fn is_yes(lower: Seq<char>) -> bool {
    lower == "y"@ || lower == "yes"@
}

/// The trimmed answer says yes: in lower case it is `y` or `yes`.
pub open spec fn says_yes(answer: Seq<char>) -> bool {
    is_yes(lowercase_of(answer))
}

/// The port that the trimmed answer names: the default for an empty answer,
/// else the number from 0 to 65535 that it denotes, if it denotes one.
pub open spec fn port_answer(answer: Seq<char>) -> Option<u16> {
    if answer.len() == 0 {
        Some(DEFAULT_PORT)
    } else {
        match parsed_number(answer, 65535) {
            Some(n) => Some(n as u16),
            None => None,
        }
    }
}

/// What follows the answer `line` in the state `state` of the dialog that
/// adds a host alias.
///
/// The name must be given and must be new; the connection must be given; the
/// port must be a port, 22 where the answer is empty; the key path may stay
/// empty; the alias is added only on `y` or `yes`.
pub open spec fn host_turn(state: HostDialogView, line: Seq<char>, store: ConfigView)
    -> HostTurnView {
    let answer = trimmed(line);
    match state {
        HostDialogView::Name => if answer.len() == 0 {
            HostTurnView::Stop(HostStopView::NameMissing)
        } else if has_key(store.hosts, answer) {
            HostTurnView::Stop(HostStopView::AlreadyExists { name: answer })
        } else {
            HostTurnView::Ask(HostDialogView::Connection { name: answer })
        },
        HostDialogView::Connection { name } => if answer.len() == 0 {
            HostTurnView::Stop(HostStopView::ConnectionMissing)
        } else {
            HostTurnView::Ask(HostDialogView::Port { name, connection: answer })
        },
        HostDialogView::Port { name, connection } => match port_answer(answer) {
            Some(port) => HostTurnView::Ask(HostDialogView::Key { name, connection, port }),
            None => HostTurnView::Stop(HostStopView::InvalidPort),
        },
        HostDialogView::Key { name, connection, port } => HostTurnView::Ask(
            HostDialogView::Confirm {
                name,
                connection,
                port,
                key_path: if answer.len() == 0 {
                    None
                } else {
                    Some(answer)
                },
            },
        ),
        HostDialogView::Confirm { name, connection, port, key_path } => if says_yes(answer) {
            HostTurnView::Add { name, connection, port, key_path }
        } else {
            HostTurnView::Stop(HostStopView::Cancelled)
        },
    }
}

/// What follows the trimmed answer `answer` in a state of the local branch
/// of the dialog that adds a path alias. Name and path must be given; the
/// alias is added only on `y` or `yes`.
pub open spec fn local_path_turn(state: PathDialogView, answer: Seq<char>) -> PathTurnView
    recommends
        state is LocalName || state is LocalPath || state is LocalConfirm,
{
    match state {
        PathDialogView::LocalName => if answer.len() == 0 {
            PathTurnView::Stop(PathStopView::NameMissing)
        } else {
            PathTurnView::Ask(PathDialogView::LocalPath { name: answer })
        },
        PathDialogView::LocalPath { name } => if answer.len() == 0 {
            PathTurnView::Stop(PathStopView::PathMissing)
        } else {
            PathTurnView::Ask(PathDialogView::LocalConfirm { name, path: answer })
        },
        PathDialogView::LocalConfirm { name, path } => if says_yes(answer) {
            PathTurnView::AddLocal { name, path }
        } else {
            PathTurnView::Stop(PathStopView::Cancelled)
        },
        _ => PathTurnView::Stop(PathStopView::InvalidChoice),
    }
}

/// What follows the trimmed answer `answer` in a state of the remote branch
/// of the dialog that adds a path alias. The host must be a host alias; name
/// and path must be given; the alias is added only on `y` or `yes`.
pub open spec fn remote_path_turn(state: PathDialogView, answer: Seq<char>, store: ConfigView)
    -> PathTurnView
    recommends
        state is RemoteHost || state is RemoteName || state is RemotePath
            || state is RemoteConfirm,
{
    match state {
        PathDialogView::RemoteHost => if has_key(store.hosts, answer) {
            PathTurnView::Ask(PathDialogView::RemoteName { host: answer })
        } else {
            PathTurnView::Stop(PathStopView::UnknownHost { host: answer })
        },
        PathDialogView::RemoteName { host } => if answer.len() == 0 {
            PathTurnView::Stop(PathStopView::NameMissing)
        } else {
            PathTurnView::Ask(PathDialogView::RemotePath { host, name: answer })
        },
        PathDialogView::RemotePath { host, name } => if answer.len() == 0 {
            PathTurnView::Stop(PathStopView::PathMissing)
        } else {
            PathTurnView::Ask(PathDialogView::RemoteConfirm { host, name, path: answer })
        },
        PathDialogView::RemoteConfirm { host, name, path } => if says_yes(answer) {
            PathTurnView::AddRemote { host, name, path }
        } else {
            PathTurnView::Stop(PathStopView::Cancelled)
        },
        _ => PathTurnView::Stop(PathStopView::InvalidChoice),
    }
}

/// What follows the answer `line` in the state `state` of the dialog that
/// adds a path alias.
///
/// The first answer picks the branch: `1` the local one, `2` the remote one,
/// which needs a store with a host alias in it.
pub open spec fn path_turn(state: PathDialogView, line: Seq<char>, store: ConfigView)
    -> PathTurnView {
    let answer = trimmed(line);
    match state {
        PathDialogView::Kind => if answer == "1"@ {
            PathTurnView::Ask(PathDialogView::LocalName)
        } else if answer == "2"@ {
            if store.hosts.len() == 0 {
                PathTurnView::Stop(PathStopView::NoHosts)
            } else {
                PathTurnView::Ask(PathDialogView::RemoteHost)
            }
        } else {
            PathTurnView::Stop(PathStopView::InvalidChoice)
        },
        PathDialogView::LocalName | PathDialogView::LocalPath { .. }
        | PathDialogView::LocalConfirm { .. } => local_path_turn(state, answer),
        _ => remote_path_turn(state, answer, store),
    }
}

/// How many questions of the dialog that adds a host alias are answered
/// when it stands in `state`.
pub open spec fn host_step(state: HostDialogView) -> nat {
    match state {
        HostDialogView::Name => 0,
        HostDialogView::Connection { .. } => 1,
        HostDialogView::Port { .. } => 2,
        HostDialogView::Key { .. } => 3,
        HostDialogView::Confirm { .. } => 4,
    }
}

/// How many questions of the dialog that adds a path alias are answered
/// when it stands in `state`.
pub open spec fn path_step(state: PathDialogView) -> nat {
    match state {
        PathDialogView::Kind => 0,
        PathDialogView::LocalName | PathDialogView::RemoteHost => 1,
        PathDialogView::LocalPath { .. } | PathDialogView::RemoteName { .. } => 2,
        PathDialogView::LocalConfirm { .. } | PathDialogView::RemotePath { .. } => 3,
        PathDialogView::RemoteConfirm { .. } => 4,
    }
}

/// The dialog that adds a host alias moves on by one question with every
/// answer, so it ends with the fifth at the latest; and it adds an alias
/// only after the last question, on a yes, and then what was entered.
pub proof fn lemma_host_dialog_ends(state: HostDialogView, line: Seq<char>, store: ConfigView)
    ensures
        host_turn(state, line, store) matches HostTurnView::Ask(next) ==> host_step(next)
            == host_step(state) + 1,
        host_turn(state, line, store) matches HostTurnView::Add {
            name,
            connection,
            port,
            key_path,
        } ==> says_yes(trimmed(line)) && state == (HostDialogView::Confirm {
            name,
            connection,
            port,
            key_path,
        }),
{
}

/// The dialog that adds a path alias moves on by one question with every
/// answer, so it ends with the fifth at the latest; and it adds an alias
/// only after the last question of its branch, on a yes, and then what was
/// entered.
pub proof fn lemma_path_dialog_ends(state: PathDialogView, line: Seq<char>, store: ConfigView)
    ensures
        path_turn(state, line, store) matches PathTurnView::Ask(next) ==> path_step(next)
            == path_step(state) + 1,
        path_turn(state, line, store) matches PathTurnView::AddLocal { name, path } ==> says_yes(
            trimmed(line),
        ) && state == (PathDialogView::LocalConfirm { name, path }),
        path_turn(state, line, store) matches PathTurnView::AddRemote { host, name, path }
            ==> says_yes(trimmed(line)) && state == (PathDialogView::RemoteConfirm {
            host,
            name,
            path,
        }),
{
}

/// Tests whether `lower`, an answer in lower case, is `y` or `yes`.
pub fn lowered_is_yes(lower: &str) -> (b: bool)
    ensures
        b == is_yes(lower@),
{
    same_text(lower, "y") || same_text(lower, "yes")
}

/// Tests whether the trimmed answer says yes, in whatever case it is
/// written.
pub fn answer_says_yes(answer: &str) -> (b: bool)
    ensures
        b == says_yes(answer@),
{
    lowered_is_yes(to_lowercase(answer).as_str())
}

/// Reads the trimmed answer as a port.
pub fn answer_port(answer: &str) -> (port: Option<u16>)
    ensures
        port == port_answer(answer@),
{
    if answer.unicode_len() == 0 {
        Some(DEFAULT_PORT)
    } else {
        match parse_number(answer, 65535) {
            Some(n) => Some(n as u16),
            None => None,
        }
    }
}

/// One step of the dialog that adds a host alias: what follows the answer
/// `line` in the state `state`. The store is only read, to see whether the
/// name is taken.
///
/// The dialog starts in [`HostDialog::Name`]. On [`HostTurn::Add`] the
/// caller adds the alias with `add_host`.
pub fn add_host_interactive(state: HostDialog, line: &str, config: &Config) -> (turn: HostTurn)
    ensures
        turn@ == host_turn(state@, line@, config@),
{
    let answer = trim(line);
    let empty = answer.unicode_len() == 0;
    match state {
        HostDialog::Name => {
            if empty {
                HostTurn::Stop(HostStop::NameMissing)
            } else if config.hosts.contains_key(answer) {
                HostTurn::Stop(HostStop::AlreadyExists { name: String::from_str(answer) })
            } else {
                HostTurn::Ask(HostDialog::Connection { name: String::from_str(answer) })
            }
        },
        HostDialog::Connection { name } => {
            if empty {
                HostTurn::Stop(HostStop::ConnectionMissing)
            } else {
                HostTurn::Ask(HostDialog::Port { name, connection: String::from_str(answer) })
            }
        },
        HostDialog::Port { name, connection } => match answer_port(answer) {
            Some(port) => HostTurn::Ask(HostDialog::Key { name, connection, port }),
            None => HostTurn::Stop(HostStop::InvalidPort),
        },
        HostDialog::Key { name, connection, port } => {
            let key_path = if empty {
                None
            } else {
                Some(String::from_str(answer))
            };
            HostTurn::Ask(HostDialog::Confirm { name, connection, port, key_path })
        },
        HostDialog::Confirm { name, connection, port, key_path } => {
            if answer_says_yes(answer) {
                HostTurn::Add { name, connection, port, key_path }
            } else {
                HostTurn::Stop(HostStop::Cancelled)
            }
        },
    }
}

/// One step of the local branch of the dialog that adds a path alias, on an
/// answer that is trimmed already.
pub fn add_local_path_interactive(state: PathDialog, answer: &str) -> (turn: PathTurn)
    ensures
        turn@ == local_path_turn(state@, answer@),
{
    let empty = answer.unicode_len() == 0;
    match state {
        PathDialog::LocalName => {
            if empty {
                PathTurn::Stop(PathStop::NameMissing)
            } else {
                PathTurn::Ask(PathDialog::LocalPath { name: String::from_str(answer) })
            }
        },
        PathDialog::LocalPath { name } => {
            if empty {
                PathTurn::Stop(PathStop::PathMissing)
            } else {
                PathTurn::Ask(PathDialog::LocalConfirm { name, path: String::from_str(answer) })
            }
        },
        PathDialog::LocalConfirm { name, path } => {
            if answer_says_yes(answer) {
                PathTurn::AddLocal { name, path }
            } else {
                PathTurn::Stop(PathStop::Cancelled)
            }
        },
        _ => PathTurn::Stop(PathStop::InvalidChoice),
    }
}

/// One step of the remote branch of the dialog that adds a path alias, on
/// an answer that is trimmed already.
pub fn add_remote_path_interactive(state: PathDialog, answer: &str, config: &Config) -> (turn:
    PathTurn)
    ensures
        turn@ == remote_path_turn(state@, answer@, config@),
{
    let empty = answer.unicode_len() == 0;
    match state {
        PathDialog::RemoteHost => {
            if config.hosts.contains_key(answer) {
                PathTurn::Ask(PathDialog::RemoteName { host: String::from_str(answer) })
            } else {
                PathTurn::Stop(PathStop::UnknownHost { host: String::from_str(answer) })
            }
        },
        PathDialog::RemoteName { host } => {
            if empty {
                PathTurn::Stop(PathStop::NameMissing)
            } else {
                PathTurn::Ask(PathDialog::RemotePath { host, name: String::from_str(answer) })
            }
        },
        PathDialog::RemotePath { host, name } => {
            if empty {
                PathTurn::Stop(PathStop::PathMissing)
            } else {
                PathTurn::Ask(
                    PathDialog::RemoteConfirm { host, name, path: String::from_str(answer) },
                )
            }
        },
        PathDialog::RemoteConfirm { host, name, path } => {
            if answer_says_yes(answer) {
                PathTurn::AddRemote { host, name, path }
            } else {
                PathTurn::Stop(PathStop::Cancelled)
            }
        },
        _ => PathTurn::Stop(PathStop::InvalidChoice),
    }
}

/// One step of the dialog that adds a path alias: what follows the answer
/// `line` in the state `state`. The store is only read, to see which host
/// aliases there are.
///
/// The dialog starts in [`PathDialog::Kind`]. On [`PathTurn::AddLocal`] the
/// caller adds the alias with `add_local_path`, on [`PathTurn::AddRemote`]
/// with `add_host_path`.
pub fn add_path_interactive(state: PathDialog, line: &str, config: &Config) -> (turn: PathTurn)
    ensures
        turn@ == path_turn(state@, line@, config@),
{
    let answer = trim(line);
    match state {
        PathDialog::Kind => {
            if same_text(answer, "1") {
                PathTurn::Ask(PathDialog::LocalName)
            } else if same_text(answer, "2") {
                if config.hosts.is_empty() {
                    PathTurn::Stop(PathStop::NoHosts)
                } else {
                    PathTurn::Ask(PathDialog::RemoteHost)
                }
            } else {
                PathTurn::Stop(PathStop::InvalidChoice)
            }
        },
        PathDialog::LocalName | PathDialog::LocalPath { .. } | PathDialog::LocalConfirm { .. } => {
            add_local_path_interactive(state, answer)
        },
        _ => add_remote_path_interactive(state, answer, config),
    }
}

} // verus!
