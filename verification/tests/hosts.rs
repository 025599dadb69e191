use sshportal::config::{Config, Host};
use sshportal::host::{
    add_host, add_host_with_home, connect_host, list_hosts, remove_host, AddHostOutcome, HostLine,
    RemoveOutcome,
};
use sshportal::invocation::Invocation;
use sshportal::table::Table;

fn names(config: &Config) -> Vec<String> {
    (0..config.hosts.len()).map(|i| config.hosts.key_at(i).to_string()).collect()
}

fn strings(items: &[&str]) -> Vec<String> {
    items.iter().map(|s| s.to_string()).collect()
}

#[test]
fn add_host_stores_what_was_given() {
    let mut config = Config::default();
    let outcome =
        add_host_with_home(&mut config, "prod", "deploy@prod.example.com", 2222, None, None);
    assert_eq!(outcome, AddHostOutcome::Added);
    assert_eq!(
        config.hosts.get("prod"),
        Some(&Host {
            connection: "deploy@prod.example.com".to_string(),
            port: 2222,
            key_path: None
        })
    );
    assert_eq!(config.hosts.len(), 1);
    assert!(config.paths.is_none());
    assert!(config.local_paths.is_empty());
    assert!(config.host_paths.is_empty());
}

#[test]
fn add_host_expands_the_key_path() {
    let mut config = Config::default();
    let outcome = add_host_with_home(
        &mut config,
        "prod",
        "me@prod",
        22,
        Some("~/.ssh/id_ed25519"),
        Some("/home/me"),
    );
    assert_eq!(outcome, AddHostOutcome::Added);
    assert_eq!(
        config.hosts.get("prod").unwrap().key_path,
        Some("/home/me/.ssh/id_ed25519".to_string())
    );
    let outcome =
        add_host_with_home(&mut config, "lab", "me@lab", 22, Some("/keys/lab"), Some("/home/me"));
    assert_eq!(outcome, AddHostOutcome::Added);
    assert_eq!(config.hosts.get("lab").unwrap().key_path, Some("/keys/lab".to_string()));
    assert_eq!(names(&config), vec!["prod", "lab"]);
}

#[test]
fn add_host_leaves_a_taken_name() {
    let mut config = Config::default();
    add_host_with_home(&mut config, "prod", "me@prod", 22, None, None);
    let outcome =
        add_host_with_home(&mut config, "prod", "other@elsewhere", 2200, Some("/k"), None);
    assert_eq!(outcome, AddHostOutcome::AlreadyExists);
    assert_eq!(
        config.hosts.get("prod"),
        Some(&Host { connection: "me@prod".to_string(), port: 22, key_path: None })
    );
    assert_eq!(config.hosts.len(), 1);
}

#[test]
fn add_host_without_home_refuses_tilde_key() {
    let mut config = Config::default();
    let outcome = add_host_with_home(&mut config, "prod", "me@prod", 22, Some("~/.ssh/id"), None);
    assert_eq!(outcome, AddHostOutcome::HomeUnknown);
    assert!(config.hosts.is_empty());
    // A taken name is reported first.
    add_host_with_home(&mut config, "prod", "me@prod", 22, None, None);
    let outcome = add_host_with_home(&mut config, "prod", "me@prod", 22, Some("~/.ssh/id"), None);
    assert_eq!(outcome, AddHostOutcome::AlreadyExists);
}

#[test]
fn add_host_with_the_environment() {
    let mut config = Config::default();
    assert_eq!(add_host(&mut config, "a", "me@a", 22, None), AddHostOutcome::Added);
    assert_eq!(add_host(&mut config, "b", "me@b", 22, Some("/keys/b")), AddHostOutcome::Added);
    assert_eq!(add_host(&mut config, "a", "me@a", 22, Some("~/k")), AddHostOutcome::AlreadyExists);
    assert_eq!(config.hosts.get("b").unwrap().key_path, Some("/keys/b".to_string()));
    match add_host(&mut config, "c", "me@c", 22, Some("~/k")) {
        AddHostOutcome::Added => {
            let key = config.hosts.get("c").unwrap().key_path.clone().unwrap();
            assert!(key.ends_with("/k"));
            assert!(!key.starts_with('~'));
        }
        AddHostOutcome::HomeUnknown => assert!(!config.hosts.contains_key("c")),
        AddHostOutcome::AlreadyExists => panic!("the name was new"),
    }
}

#[test]
fn remove_host_takes_out_one_alias() {
    let mut config = Config::default();
    add_host_with_home(&mut config, "a", "me@a", 22, None, None);
    add_host_with_home(&mut config, "b", "me@b", 22, None, None);
    add_host_with_home(&mut config, "c", "me@c", 22, None, None);
    sshportal::path::add_host_path(&mut config, "b", "logs", "/var/log");
    assert_eq!(remove_host(&mut config, "b"), RemoveOutcome::Removed);
    assert_eq!(names(&config), vec!["a", "c"]);
    assert_eq!(remove_host(&mut config, "b"), RemoveOutcome::NotFound);
    assert_eq!(names(&config), vec!["a", "c"]);
    // The paths of the host stay.
    assert_eq!(config.host_paths.len(), 1);
    assert_eq!(config.host_paths.key_at(0), "b");
}

#[test]
fn list_of_no_hosts() {
    assert_eq!(list_hosts(&Config::default()), vec![HostLine::NoHosts]);
}

#[test]
fn list_of_hosts_in_table_order() {
    let mut config = Config::default();
    add_host_with_home(&mut config, "prod", "deploy@prod.example.com", 22, None, None);
    add_host_with_home(&mut config, "lab", "me@10.1.2.3", 2222, Some("/keys/lab"), None);
    assert_eq!(
        list_hosts(&config),
        vec![
            HostLine::Heading,
            HostLine::Entry {
                name: "prod".to_string(),
                target: "deploy@prod.example.com:22".to_string(),
                key_note: "".to_string(),
            },
            HostLine::Entry {
                name: "lab".to_string(),
                target: "me@10.1.2.3:2222".to_string(),
                key_note: " (key: /keys/lab)".to_string(),
            },
        ]
    );
}

#[test]
fn connect_to_unknown_alias() {
    assert_eq!(connect_host(&Config::default(), "prod"), None);
}

#[test]
fn connect_builds_the_ssh_call() {
    let mut config = Config::default();
    add_host_with_home(&mut config, "prod", "deploy@prod.example.com", 22, None, None);
    add_host_with_home(&mut config, "lab", "me@10.1.2.3", 2222, Some("/keys/lab"), None);
    assert_eq!(
        connect_host(&config, "prod"),
        Some(Invocation {
            program: "ssh".to_string(),
            args: strings(&["deploy@prod.example.com", "-p", "22"]),
        })
    );
    assert_eq!(
        connect_host(&config, "lab"),
        Some(Invocation {
            program: "ssh".to_string(),
            args: strings(&["me@10.1.2.3", "-p", "2222", "-i", "/keys/lab"]),
        })
    );
    assert_eq!(connect_host(&config, "Lab"), None);
}

#[test]
fn connect_with_port_limits() {
    let mut hosts = Table::new();
    hosts.insert(
        "zero".to_string(),
        Host { connection: "a@b".to_string(), port: 0, key_path: None },
    );
    hosts.insert(
        "max".to_string(),
        Host { connection: "a@b".to_string(), port: 65535, key_path: None },
    );
    let config =
        Config { hosts, paths: None, local_paths: Table::new(), host_paths: Table::new() };
    assert_eq!(connect_host(&config, "zero").unwrap().args, strings(&["a@b", "-p", "0"]));
    assert_eq!(connect_host(&config, "max").unwrap().args, strings(&["a@b", "-p", "65535"]));
}
