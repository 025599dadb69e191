use sshportal::commands::{handle_command, handle_command_with_home, Cli, Commands, Reply};
use sshportal::config::{Config, Host, Path};
use sshportal::host::{AddHostOutcome, HostLine, RemoveOutcome};
use sshportal::invocation::Invocation;
use sshportal::path::{AddPathOutcome, PathLine};
use sshportal::resolve::ResolveError;
use sshportal::transfer::CopyError;
use sshportal::table::Table;

fn s(t: &str) -> String {
    t.to_string()
}

fn run(config: &mut Config, command: Commands) -> Reply {
    handle_command_with_home(Cli { command }, config, Some("/home/me"))
}

fn store() -> Config {
    let mut config = Config::default();
    config
        .hosts
        .insert(s("prod"), Host { connection: s("deploy@prod"), port: 22, key_path: None });
    let mut paths = Table::new();
    paths.insert(s("backup"), Path { path: s("/var/backup"), is_remote: true });
    config.paths = Some(paths);
    config
}

#[test]
fn add_host_command() {
    let mut config = Config::default();
    let reply = run(
        &mut config,
        Commands::AddHost {
            name: s("lab"),
            connection: s("me@lab"),
            port: 2222,
            identity_file: Some(s("~/.ssh/lab")),
        },
    );
    assert_eq!(reply, Reply::HostAdded(AddHostOutcome::Added));
    assert_eq!(
        config.hosts.get("lab"),
        Some(&Host { connection: s("me@lab"), port: 2222, key_path: Some(s("/home/me/.ssh/lab")) })
    );
    let reply = run(
        &mut config,
        Commands::AddHost { name: s("lab"), connection: s("x@y"), port: 1, identity_file: None },
    );
    assert_eq!(reply, Reply::HostAdded(AddHostOutcome::AlreadyExists));
}

#[test]
fn remove_host_command() {
    let mut config = store();
    assert_eq!(
        run(&mut config, Commands::RemoveHost { name: s("nope") }),
        Reply::HostRemoved(RemoveOutcome::NotFound)
    );
    assert_eq!(
        run(&mut config, Commands::RemoveHost { name: s("prod") }),
        Reply::HostRemoved(RemoveOutcome::Removed)
    );
    assert!(config.hosts.is_empty());
}

#[test]
fn list_hosts_command() {
    let mut config = store();
    let before = format!("{:?}", config);
    assert_eq!(
        run(&mut config, Commands::ListHosts),
        Reply::Hosts(vec![
            HostLine::Heading,
            HostLine::Entry { name: s("prod"), target: s("deploy@prod:22"), key_note: s("") },
        ])
    );
    assert_eq!(format!("{:?}", config), before);
}

#[test]
fn connect_command() {
    let mut config = store();
    assert_eq!(
        run(&mut config, Commands::Connect { host: s("prod") }),
        Reply::Connect(Some(Invocation {
            program: s("ssh"),
            args: vec![s("deploy@prod"), s("-p"), s("22")],
        }))
    );
    assert_eq!(run(&mut config, Commands::Connect { host: s("nope") }), Reply::Connect(None));
}

#[test]
fn add_and_remove_path_commands() {
    let mut config = store();
    assert_eq!(
        run(&mut config, Commands::AddPath { name: s("docs"), path: s("~/docs"), remote: false }),
        Reply::PathAdded(AddPathOutcome::Added)
    );
    assert_eq!(
        run(&mut config, Commands::AddPath { name: s("docs"), path: s("/d"), remote: false }),
        Reply::PathAdded(AddPathOutcome::AlreadyExists)
    );
    assert_eq!(
        run(&mut config, Commands::AddPath { name: s("logs"), path: s("/l"), remote: true }),
        Reply::PathAdded(AddPathOutcome::HostRequired)
    );
    assert_eq!(config.local_paths.len(), 1);
    assert_eq!(config.local_paths.get("docs").unwrap().path, "~/docs");
    assert_eq!(
        run(&mut config, Commands::RemovePath { name: s("backup") }),
        Reply::PathRemoved(RemoveOutcome::NotFound)
    );
    assert_eq!(
        run(&mut config, Commands::RemovePath { name: s("docs") }),
        Reply::PathRemoved(RemoveOutcome::Removed)
    );
    assert!(config.local_paths.is_empty());
    assert_eq!(config.paths, store().paths);
}

#[test]
fn list_paths_command() {
    let mut config = store();
    assert_eq!(
        run(&mut config, Commands::ListPaths),
        Reply::Paths(Some(vec![
            PathLine::LegacyHeading,
            PathLine::LegacyEntry { name: s("backup"), is_remote: true, path: s("/var/backup") },
        ]))
    );
}

#[test]
fn copy_command() {
    let mut config = store();
    assert_eq!(
        run(&mut config, Commands::Copy { src: s("~/a"), dst: s("prod:backup") }),
        Reply::Copy(Ok(Invocation {
            program: s("scp"),
            args: vec![s("-r"), s("/home/me/a"), s("-P"), s("22"), s("deploy@prod:/var/backup")],
        }))
    );
    assert_eq!(
        run(&mut config, Commands::Copy { src: s("backup"), dst: s("/x") }),
        Reply::Copy(Err(CopyError::Source(ResolveError::RemoteWithoutHost(s("backup")))))
    );
    assert_eq!(config, store());
}

#[test]
fn handle_command_with_the_environment() {
    let mut config = store();
    let reply = handle_command(Cli { command: Commands::ListHosts }, &mut config);
    assert_eq!(reply, run(&mut store(), Commands::ListHosts));
    let reply = handle_command(
        Cli { command: Commands::Copy { src: s("/a"), dst: s("prod:/b") } },
        &mut config,
    );
    assert_eq!(reply, run(&mut store(), Commands::Copy { src: s("/a"), dst: s("prod:/b") }));
    assert_eq!(config, store());
}
