use sshportal::config::{Config, Host, Path};
use sshportal::host::{add_host_with_home, RemoveOutcome};
use sshportal::invocation::Invocation;
use sshportal::path::{
    add_host_path, add_local_path, add_path, list_paths_new, list_paths_with_home, remove_path,
    AddHostPathOutcome, AddPathOutcome, PathLine,
};
use sshportal::resolve::ResolveError;
use sshportal::transfer::{copy_files, copy_files_with_home, CopyError};
use sshportal::table::Table;

fn strings(items: &[&str]) -> Vec<String> {
    items.iter().map(|s| s.to_string()).collect()
}

fn scp(args: &[&str]) -> Result<Invocation, CopyError> {
    Ok(Invocation { program: "scp".to_string(), args: strings(args) })
}

/// Hosts `prod` (port 22, no key) and `lab` (port 2222, key); unified table
/// with remote `backup` and local `notes`.
fn store() -> Config {
    let mut config = Config::default();
    config.hosts.insert(
        "prod".to_string(),
        Host { connection: "deploy@prod.example.com".to_string(), port: 22, key_path: None },
    );
    config.hosts.insert(
        "lab".to_string(),
        Host {
            connection: "me@10.1.2.3".to_string(),
            port: 2222,
            key_path: Some("/keys/lab".to_string()),
        },
    );
    let mut paths = Table::new();
    paths.insert("backup".to_string(), Path { path: "/var/backup".to_string(), is_remote: true });
    paths.insert("notes".to_string(), Path { path: "~/notes".to_string(), is_remote: false });
    config.paths = Some(paths);
    config
}

fn local_names(config: &Config) -> Vec<(String, String)> {
    (0..config.local_paths.len())
        .map(|i| {
            (config.local_paths.key_at(i).to_string(), config.local_paths.value_at(i).path.clone())
        })
        .collect()
}

fn group(config: &Config, host: &str) -> Vec<(String, String)> {
    match config.host_paths.get(host) {
        Some(g) => (0..g.len())
            .map(|i| (g.key_at(i).to_string(), g.value_at(i).path.clone()))
            .collect(),
        None => Vec::new(),
    }
}

fn pair(a: &str, b: &str) -> (String, String) {
    (a.to_string(), b.to_string())
}

#[test]
fn add_local_path_appends() {
    let mut config = store();
    assert_eq!(add_local_path(&mut config, "docs", "~/docs"), AddPathOutcome::Added);
    assert_eq!(add_local_path(&mut config, "src", "/src"), AddPathOutcome::Added);
    assert_eq!(local_names(&config), vec![pair("docs", "~/docs"), pair("src", "/src")]);
    assert_eq!(add_local_path(&mut config, "docs", "/elsewhere"), AddPathOutcome::AlreadyExists);
    assert_eq!(local_names(&config), vec![pair("docs", "~/docs"), pair("src", "/src")]);
}

#[test]
fn add_local_path_may_reuse_a_name_of_another_table() {
    let mut config = store();
    assert_eq!(add_local_path(&mut config, "notes", "/n"), AddPathOutcome::Added);
    assert_eq!(add_local_path(&mut config, "prod", "/p"), AddPathOutcome::Added);
    assert_eq!(local_names(&config), vec![pair("notes", "/n"), pair("prod", "/p")]);
}

#[test]
fn add_host_path_needs_the_host() {
    let mut config = store();
    assert_eq!(
        add_host_path(&mut config, "nowhere", "logs", "/var/log"),
        AddHostPathOutcome::UnknownHost
    );
    assert!(config.host_paths.is_empty());
}

#[test]
fn add_host_path_groups_by_host() {
    let mut config = store();
    assert_eq!(add_host_path(&mut config, "lab", "data", "/data"), AddHostPathOutcome::Added);
    assert_eq!(add_host_path(&mut config, "prod", "logs", "/var/log"), AddHostPathOutcome::Added);
    assert_eq!(add_host_path(&mut config, "lab", "tmp", "/tmp"), AddHostPathOutcome::Added);
    assert_eq!(add_host_path(&mut config, "prod", "data", "/srv"), AddHostPathOutcome::Added);
    assert_eq!(
        add_host_path(&mut config, "lab", "data", "/other"),
        AddHostPathOutcome::AlreadyExists
    );
    assert_eq!(config.host_paths.len(), 2);
    assert_eq!(config.host_paths.key_at(0), "lab");
    assert_eq!(config.host_paths.key_at(1), "prod");
    assert_eq!(group(&config, "lab"), vec![pair("data", "/data"), pair("tmp", "/tmp")]);
    assert_eq!(group(&config, "prod"), vec![pair("logs", "/var/log"), pair("data", "/srv")]);
}

#[test]
fn adding_never_writes_the_unified_table() {
    let mut config = store();
    let before = format!("{:?}", config.paths);
    add_local_path(&mut config, "backup", "/b");
    add_host_path(&mut config, "prod", "backup", "/b");
    add_path(&mut config, "backup", "/b", false);
    add_path(&mut config, "other", "/b", true);
    remove_path(&mut config, "backup");
    remove_path(&mut config, "notes");
    assert_eq!(format!("{:?}", config.paths), before);
    let mut fresh = Config::default();
    add_path(&mut fresh, "a", "/a", false);
    add_path(&mut fresh, "b", "/b", true);
    assert!(fresh.paths.is_none());
}

#[test]
fn add_path_local_goes_to_the_local_table() {
    let mut config = Config::default();
    assert_eq!(add_path(&mut config, "docs", "~/docs", false), AddPathOutcome::Added);
    assert_eq!(local_names(&config), vec![pair("docs", "~/docs")]);
    assert_eq!(add_path(&mut config, "docs", "/x", false), AddPathOutcome::AlreadyExists);
    assert_eq!(local_names(&config), vec![pair("docs", "~/docs")]);
}

#[test]
fn add_path_remote_needs_a_host() {
    let mut config = store();
    assert_eq!(add_path(&mut config, "logs", "/var/log", true), AddPathOutcome::HostRequired);
    assert!(config.local_paths.is_empty());
    assert!(config.host_paths.is_empty());
}

#[test]
fn remove_path_takes_out_a_local_alias() {
    let mut config = Config::default();
    add_local_path(&mut config, "a", "/a");
    add_local_path(&mut config, "b", "/b");
    add_local_path(&mut config, "c", "/c");
    assert_eq!(remove_path(&mut config, "b"), RemoveOutcome::Removed);
    assert_eq!(local_names(&config), vec![pair("a", "/a"), pair("c", "/c")]);
    assert_eq!(remove_path(&mut config, "b"), RemoveOutcome::NotFound);
}

#[test]
fn list_of_no_paths() {
    assert_eq!(list_paths_with_home(&Config::default(), None), Some(vec![PathLine::NoPaths]));
    let mut config = Config::default();
    config.paths = Some(Table::new());
    assert_eq!(list_paths_with_home(&config, Some("/home/me")), Some(vec![PathLine::NoPaths]));
}

#[test]
fn list_of_paths_has_three_sections() {
    let mut config = store();
    add_local_path(&mut config, "docs", "~/docs");
    add_local_path(&mut config, "notes", "/srv/notes");
    add_host_path(&mut config, "lab", "data", "/data");
    add_host_path(&mut config, "prod", "logs", "/var/log");
    add_host_path(&mut config, "lab", "notes", "/lab/notes");
    let s = |t: &str| t.to_string();
    assert_eq!(
        list_paths_with_home(&config, Some("/home/me")),
        Some(vec![
            PathLine::LocalHeading,
            PathLine::LocalEntry { name: s("docs"), path: s("/home/me/docs") },
            PathLine::LocalEntry { name: s("notes"), path: s("/srv/notes") },
            PathLine::Blank,
            PathLine::RemoteHeading,
            PathLine::HostName { host: s("lab") },
            PathLine::RemoteEntry { name: s("data"), path: s("/data") },
            PathLine::RemoteEntry { name: s("notes"), path: s("/lab/notes") },
            PathLine::HostName { host: s("prod") },
            PathLine::RemoteEntry { name: s("logs"), path: s("/var/log") },
            PathLine::Blank,
            PathLine::LegacyHeading,
            PathLine::LegacyEntry { name: s("backup"), is_remote: true, path: s("/var/backup") },
            PathLine::LegacyEntry { name: s("notes"), is_remote: false, path: s("/home/me/notes") },
        ])
    );
}

#[test]
fn list_with_one_section_only() {
    let s = |t: &str| t.to_string();
    let mut config = Config::default();
    add_local_path(&mut config, "docs", "/docs");
    assert_eq!(
        list_paths_with_home(&config, None),
        Some(vec![
            PathLine::LocalHeading,
            PathLine::LocalEntry { name: s("docs"), path: s("/docs") },
            PathLine::Blank,
        ])
    );
    let mut config = Config::default();
    add_host_with_home(&mut config, "lab", "me@lab", 22, None, None);
    add_host_path(&mut config, "lab", "data", "~/data");
    assert_eq!(
        list_paths_with_home(&config, None),
        Some(vec![
            PathLine::RemoteHeading,
            PathLine::HostName { host: s("lab") },
            PathLine::RemoteEntry { name: s("data"), path: s("~/data") },
            PathLine::Blank,
        ])
    );
    let mut config = Config::default();
    let mut paths = Table::new();
    paths.insert(s("r"), Path { path: s("~/remote"), is_remote: true });
    config.paths = Some(paths);
    assert_eq!(
        list_paths_with_home(&config, None),
        Some(vec![
            PathLine::LegacyHeading,
            PathLine::LegacyEntry { name: s("r"), is_remote: true, path: s("~/remote") },
        ])
    );
}

#[test]
fn list_without_home_fails_on_tilde_paths() {
    let mut config = Config::default();
    add_local_path(&mut config, "docs", "~/docs");
    assert_eq!(list_paths_with_home(&config, None), None);
    assert_eq!(list_paths_with_home(&store(), None), None);
    assert!(list_paths_with_home(&store(), Some("/h")).is_some());
}

#[test]
fn list_with_the_environment() {
    let mut config = Config::default();
    add_local_path(&mut config, "docs", "/docs");
    assert_eq!(list_paths_new(&config), list_paths_with_home(&config, None));
    assert_eq!(list_paths_new(&Config::default()), Some(vec![PathLine::NoPaths]));
}

#[test]
fn copy_local_to_alias_host() {
    assert_eq!(
        copy_files_with_home(&store(), "./a.txt", "prod:/srv/a.txt", None),
        scp(&["-r", "./a.txt", "-P", "22", "deploy@prod.example.com:/srv/a.txt"])
    );
    assert_eq!(
        copy_files_with_home(&store(), "/tmp/x", "lab:backup", None),
        scp(&["-r", "/tmp/x", "-P", "2222", "-i", "/keys/lab", "me@10.1.2.3:/var/backup"])
    );
}

#[test]
fn copy_alias_host_to_local() {
    assert_eq!(
        copy_files_with_home(&store(), "lab:/data/x", "~/x", Some("/home/me")),
        scp(&["-r", "-P", "2222", "-i", "/keys/lab", "me@10.1.2.3:/data/x", "/home/me/x"])
    );
    assert_eq!(
        copy_files_with_home(&store(), "prod:backup", "notes", Some("/home/me")),
        scp(&["-r", "-P", "22", "deploy@prod.example.com:/var/backup", "/home/me/notes"])
    );
}

#[test]
fn copy_between_remote_hosts_names_the_source_port_only() {
    assert_eq!(
        copy_files_with_home(&store(), "prod:/a", "lab:/b", None),
        scp(&["-r", "-P", "22", "deploy@prod.example.com:/a", "me@10.1.2.3:/b"])
    );
    assert_eq!(
        copy_files_with_home(&store(), "lab:/a", "user@10.0.0.1:/b", None),
        scp(&["-r", "-P", "2222", "-i", "/keys/lab", "me@10.1.2.3:/a", "user@10.0.0.1:/b"])
    );
}

#[test]
fn copy_with_raw_targets_uses_the_default_port() {
    assert_eq!(
        copy_files_with_home(&store(), "user@10.0.0.1:/tmp/x", "/tmp/y", None),
        scp(&["-r", "-P", "22", "user@10.0.0.1:/tmp/x", "/tmp/y"])
    );
    assert_eq!(
        copy_files_with_home(&store(), "/tmp/y", "example.org:/tmp/x", None),
        scp(&["-r", "/tmp/y", "-P", "22", "example.org:/tmp/x"])
    );
}

#[test]
fn copy_local_to_local() {
    assert_eq!(
        copy_files_with_home(&store(), "~/a", "notes", Some("/home/me")),
        scp(&["-r", "/home/me/a", "/home/me/notes"])
    );
}

#[test]
fn copy_reports_the_source_first() {
    assert_eq!(
        copy_files_with_home(&store(), "bogus!host:/x", "backup", None),
        Err(CopyError::Source(ResolveError::UnknownHost("bogus!host".to_string())))
    );
    assert_eq!(
        copy_files_with_home(&store(), "/x", "backup", None),
        Err(CopyError::Destination(ResolveError::RemoteWithoutHost("backup".to_string())))
    );
    assert_eq!(
        copy_files_with_home(&store(), "prod:notes", "/x", None),
        Err(CopyError::Source(ResolveError::NotRemotePath("notes".to_string())))
    );
    assert_eq!(
        copy_files_with_home(&store(), "backup", "~/x", None),
        Err(CopyError::Source(ResolveError::RemoteWithoutHost("backup".to_string())))
    );
}

#[test]
fn copy_without_home_fails_on_tilde_paths() {
    assert_eq!(copy_files_with_home(&store(), "~/a", "prod:/b", None), Err(CopyError::HomeUnknown));
    assert_eq!(
        copy_files_with_home(&store(), "prod:/b", "notes", None),
        Err(CopyError::HomeUnknown)
    );
    // Remote paths are never expanded.
    assert_eq!(
        copy_files_with_home(&store(), "prod:~/a", "lab:~/b", None),
        scp(&["-r", "-P", "22", "deploy@prod.example.com:~/a", "me@10.1.2.3:~/b"])
    );
}

#[test]
fn copy_with_the_environment() {
    assert_eq!(
        copy_files(&store(), "/tmp/x", "prod:/srv/x"),
        copy_files_with_home(&store(), "/tmp/x", "prod:/srv/x", None)
    );
    assert_eq!(
        copy_files(&store(), "bogus!host:/x", "/y"),
        Err(CopyError::Source(ResolveError::UnknownHost("bogus!host".to_string())))
    );
}
