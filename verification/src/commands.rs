//! The commands of the tool and what each of them does to a store.
//!
//! A command is handled against a store held by the caller. The reply says
//! what happened and carries what is to be shown or run; the store is changed
//! in place. Nothing is printed, read, written or run here.

use crate::config::{home_dir, slice_text_of, text_of, Config, ConfigView};
use crate::host::{
    add_host_outcome, add_host_store, add_host_with_home, connect_host, connect_plan, host_lines_of,
    host_listing, lemma_add_host_without_home, list_hosts, remove_host, remove_host_store,
    AddHostOutcome, HostLine, HostLineView, RemoveOutcome,
};
use crate::invocation::{Invocation, InvocationView};
use crate::path::{
    add_path, add_path_outcome, add_path_store, lemma_listing_without_home, list_paths_with_home,
    listing_of, path_listing, remove_path, remove_path_store, AddPathOutcome, PathLine,
    PathLineView,
};
use crate::table::has_key;
use crate::transfer::{
    copy_files_with_home, copy_plan, copy_result_of, lemma_copy_without_home, CopyError,
    CopyErrorView,
};
use vstd::prelude::*;

verus! {

/// One invocation of the tool.
#[derive(Debug, Clone, PartialEq, Eq)]
pub struct Cli {
    /// The command that was given.
    pub command: Commands,
}

/// The commands of the tool.
#[derive(Debug, Clone, PartialEq, Eq)]
pub enum Commands {
    /// Add a host alias.
    AddHost { name: String, connection: String, port: u16, identity_file: Option<String> },
    /// Remove a host alias.
    RemoveHost { name: String },
    /// List the host aliases.
    ListHosts,
    /// Connect to a host alias.
    Connect { host: String },
    /// Add a path alias.
    AddPath { name: String, path: String, remote: bool },
    /// Remove a path alias.
    RemovePath { name: String },
    /// List the path aliases.
    ListPaths,
    /// Copy between two endpoints.
    Copy { src: String, dst: String },
}

/// What a command came to.
#[derive(Debug, PartialEq, Eq)]
pub enum Reply {
    /// The outcome of `AddHost`.
    HostAdded(AddHostOutcome),
    /// The outcome of `RemoveHost`.
    HostRemoved(RemoveOutcome),
    /// The lines that `ListHosts` shows.
    Hosts(Vec<HostLine>),
    /// The call that `Connect` makes, or `None` for an unknown alias.
    Connect(Option<Invocation>),
    /// The outcome of `AddPath`.
    PathAdded(AddPathOutcome),
    /// The outcome of `RemovePath`.
    PathRemoved(RemoveOutcome),
    /// The lines that `ListPaths` shows, or `None` where a path to expand
    /// needs a home directory and none is known.
    Paths(Option<Vec<PathLine>>),
    /// The call that `Copy` makes, or what stands in its way.
    Copy(Result<Invocation, CopyError>),
}

/// The model of [`Commands`].
pub enum CommandsView {
    AddHost { name: Seq<char>, connection: Seq<char>, port: u16, identity_file: Option<Seq<char>> },
    RemoveHost { name: Seq<char> },
    ListHosts,
    Connect { host: Seq<char> },
    AddPath { name: Seq<char>, path: Seq<char>, remote: bool },
    RemovePath { name: Seq<char> },
    ListPaths,
    Copy { src: Seq<char>, dst: Seq<char> },
}

/// The model of a [`Reply`].
pub enum ReplyView {
    HostAdded(AddHostOutcome),
    HostRemoved(RemoveOutcome),
    Hosts(Seq<HostLineView>),
    Connect(Option<InvocationView>),
    PathAdded(AddPathOutcome),
    PathRemoved(RemoveOutcome),
    Paths(Option<Seq<PathLineView>>),
    Copy(Result<InvocationView, CopyErrorView>),
}

impl View for Commands {
    type V = CommandsView;

    open spec fn view(&self) -> CommandsView {
        match self {
            Commands::AddHost { name, connection, port, identity_file } => CommandsView::AddHost {
                name: name@,
                connection: connection@,
                port: *port,
                identity_file: text_of(*identity_file),
            },
            Commands::RemoveHost { name } => CommandsView::RemoveHost { name: name@ },
            Commands::ListHosts => CommandsView::ListHosts,
            Commands::Connect { host } => CommandsView::Connect { host: host@ },
            Commands::AddPath { name, path, remote } => CommandsView::AddPath {
                name: name@,
                path: path@,
                remote: *remote,
            },
            Commands::RemovePath { name } => CommandsView::RemovePath { name: name@ },
            Commands::ListPaths => CommandsView::ListPaths,
            Commands::Copy { src, dst } => CommandsView::Copy { src: src@, dst: dst@ },
        }
    }
}

impl View for Cli {
    type V = CommandsView;

    open spec fn view(&self) -> CommandsView {
        self.command@
    }
}

impl View for Reply {
    type V = ReplyView;

    open spec fn view(&self) -> ReplyView {
        match self {
            Reply::HostAdded(o) => ReplyView::HostAdded(*o),
            Reply::HostRemoved(o) => ReplyView::HostRemoved(*o),
            Reply::Hosts(lines) => ReplyView::Hosts(host_lines_of(lines@)),
            Reply::Connect(plan) => ReplyView::Connect(
                match plan {
                    Some(call) => Some(call@),
                    None => None,
                },
            ),
            Reply::PathAdded(o) => ReplyView::PathAdded(*o),
            Reply::PathRemoved(o) => ReplyView::PathRemoved(*o),
            Reply::Paths(lines) => ReplyView::Paths(listing_of(*lines)),
            Reply::Copy(r) => ReplyView::Copy(copy_result_of(*r)),
        }
    }
}

/// The store after `command`. Only the four commands that add or remove
/// change it, each its own table.
pub open spec fn store_after(store: ConfigView, command: CommandsView, home: Option<Seq<char>>)
    -> ConfigView {
    match command {
        CommandsView::AddHost { name, connection, port, identity_file } => add_host_store(
            store,
            name,
            connection,
            port,
            identity_file,
            home,
        ),
        CommandsView::RemoveHost { name } => remove_host_store(store, name),
        CommandsView::AddPath { name, path, remote } => add_path_store(store, name, path, remote),
        CommandsView::RemovePath { name } => remove_path_store(store, name),
        _ => store,
    }
}

/// The reply to `command` on `store`.
pub open spec fn reply_to(store: ConfigView, command: CommandsView, home: Option<Seq<char>>)
    -> ReplyView {
    match command {
        CommandsView::AddHost { name, connection, port, identity_file } => ReplyView::HostAdded(
            add_host_outcome(store, name, identity_file, home),
        ),
        CommandsView::RemoveHost { name } => ReplyView::HostRemoved(
            if has_key(store.hosts, name) {
                RemoveOutcome::Removed
            } else {
                RemoveOutcome::NotFound
            },
        ),
        CommandsView::ListHosts => ReplyView::Hosts(host_listing(store.hosts)),
        CommandsView::Connect { host } => ReplyView::Connect(connect_plan(store, host)),
        CommandsView::AddPath { name, path, remote } => ReplyView::PathAdded(
            add_path_outcome(store, name, remote),
        ),
        CommandsView::RemovePath { name } => ReplyView::PathRemoved(
            if has_key(store.local_paths, name) {
                RemoveOutcome::Removed
            } else {
                RemoveOutcome::NotFound
            },
        ),
        CommandsView::ListPaths => ReplyView::Paths(path_listing(store, home)),
        CommandsView::Copy { src, dst } => ReplyView::Copy(copy_plan(store, src, dst, home)),
    }
}

/// The home directory has no say in `command` on `store`: the command asks
/// for no path to be expanded, or none of those begins with `~/`.
pub open spec fn settled_without_home(store: ConfigView, command: CommandsView) -> bool {
    match command {
        CommandsView::AddHost { name, identity_file, .. } => add_host_outcome(
            store,
            name,
            identity_file,
            None,
        ) != AddHostOutcome::HomeUnknown,
        CommandsView::ListPaths => path_listing(store, None) is Some,
        CommandsView::Copy { src, dst } => !(copy_plan(store, src, dst, None) matches Err(
            CopyErrorView::HomeUnknown,
        )),
        _ => true,
    }
}

/// Where the home directory has no say, reply and store are the same for
/// every home directory, and for none.
pub proof fn lemma_settled_without_home(
    store: ConfigView,
    command: CommandsView,
    home: Option<Seq<char>>,
)
    requires
        settled_without_home(store, command),
    ensures
        reply_to(store, command, home) == reply_to(store, command, None),
        store_after(store, command, home) == store_after(store, command, None),
{
    match command {
        CommandsView::AddHost { name, connection, port, identity_file } => {
            lemma_add_host_without_home(store, name, connection, port, identity_file, home);
        },
        CommandsView::ListPaths => {
            lemma_listing_without_home(store, home);
        },
        CommandsView::Copy { src, dst } => {
            lemma_copy_without_home(store, src, dst, home);
        },
        _ => {},
    }
}

/// No command writes the unified path table of earlier stores.
pub proof fn lemma_unified_table_is_only_read(
    store: ConfigView,
    command: CommandsView,
    home: Option<Seq<char>>,
)
    ensures
        store_after(store, command, home).paths == store.paths,
{
}

/// A command that neither adds nor removes leaves the store as it is.
pub proof fn lemma_queries_leave_the_store(
    store: ConfigView,
    command: CommandsView,
    home: Option<Seq<char>>,
)
    requires
        command is ListHosts || command is Connect || command is ListPaths || command is Copy,
    ensures
        store_after(store, command, home) == store,
{
}

/// Handles the command of `cli` against `config`, with the home directory
/// given by the caller.
pub fn handle_command_with_home(cli: Cli, config: &mut Config, home: Option<&str>) -> (reply: Reply)
    ensures
        reply@ == reply_to(old(config)@, cli@, slice_text_of(home)),
        final(config)@ == store_after(old(config)@, cli@, slice_text_of(home)),
{
    match cli.command {
        Commands::AddHost { name, connection, port, identity_file } => {
            let key: Option<&str> = match &identity_file {
                Some(k) => Some(k.as_str()),
                None => None,
            };
            Reply::HostAdded(
                add_host_with_home(config, name.as_str(), connection.as_str(), port, key, home),
            )
        },
        Commands::RemoveHost { name } => Reply::HostRemoved(remove_host(config, name.as_str())),
        Commands::ListHosts => Reply::Hosts(list_hosts(config)),
        Commands::Connect { host } => Reply::Connect(connect_host(config, host.as_str())),
        Commands::AddPath { name, path, remote } => Reply::PathAdded(
            add_path(config, name.as_str(), path.as_str(), remote),
        ),
        Commands::RemovePath { name } => Reply::PathRemoved(remove_path(config, name.as_str())),
        Commands::ListPaths => Reply::Paths(list_paths_with_home(config, home)),
        Commands::Copy { src, dst } => Reply::Copy(
            copy_files_with_home(config, src.as_str(), dst.as_str(), home),
        ),
    }
}

/// Handles the command of `cli` against `config`, with the home directory
/// of the current user.
///
/// What comes back is what [`handle_command_with_home`] gives for the home
/// directory that the environment reports. Where the command asks for no
/// path that begins with `~/` to be expanded, the environment has no say.
/// Whatever it reports, the unified path table stays as it was.
pub fn handle_command(cli: Cli, config: &mut Config) -> (reply: Reply)
    ensures
        exists|home: Option<Seq<char>>|
            {
                &&& reply@ == #[trigger] reply_to(old(config)@, cli@, home)
                &&& final(config)@ == store_after(old(config)@, cli@, home)
            },
        settled_without_home(old(config)@, cli@) ==> {
            &&& reply@ == reply_to(old(config)@, cli@, None)
            &&& final(config)@ == store_after(old(config)@, cli@, None)
        },
        final(config)@.paths == old(config)@.paths,
{
    let home = home_dir();
    let ghost command = cli@;
    let reply = match &home {
        Some(h) => handle_command_with_home(cli, config, Some(h.as_str())),
        None => handle_command_with_home(cli, config, None),
    };
    proof {
        if settled_without_home(old(config)@, command) {
            lemma_settled_without_home(old(config)@, command, text_of(home));
        }
    }
    reply
}

} // verus!
