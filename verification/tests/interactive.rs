use sshportal::config::{Config, Host};
use sshportal::interactive::{
    add_host_interactive, add_local_path_interactive, add_path_interactive,
    add_remote_path_interactive, answer_port, answer_says_yes, lowered_is_yes, HostDialog,
    HostStop, HostTurn, PathDialog, PathStop, PathTurn,
};

fn s(t: &str) -> String {
    t.to_string()
}

fn store() -> Config {
    let mut config = Config::default();
    config
        .hosts
        .insert(s("prod"), Host { connection: s("deploy@prod"), port: 22, key_path: None });
    config
}

#[test]
fn yes_in_any_case() {
    for answer in ["y", "Y", "yes", "YES", "Yes", "yEs"] {
        assert!(answer_says_yes(answer), "{:?}", answer);
    }
    for answer in ["", "n", "no", "ye", "yess", "y ", "oui", "\u{ff59}"] {
        assert!(!answer_says_yes(answer), "{:?}", answer);
    }
}

#[test]
fn lowered_yes_is_exact() {
    assert!(lowered_is_yes("y"));
    assert!(lowered_is_yes("yes"));
    for lower in ["", "Y", "YES", "Yes", "ye", "yes ", " y", "yy", "n"] {
        assert!(!lowered_is_yes(lower), "{:?}", lower);
    }
}

#[test]
fn port_answers() {
    assert_eq!(answer_port(""), Some(22));
    assert_eq!(answer_port("2222"), Some(2222));
    assert_eq!(answer_port("+443"), Some(443));
    assert_eq!(answer_port("0"), Some(0));
    assert_eq!(answer_port("65535"), Some(65535));
    assert_eq!(answer_port("65536"), None);
    assert_eq!(answer_port("-1"), None);
    assert_eq!(answer_port("ssh"), None);
    assert_eq!(answer_port("22 "), None);
}

#[test]
fn host_dialog_runs_to_the_end() {
    let config = store();
    let turn = add_host_interactive(HostDialog::Name, "  lab \n", &config);
    assert_eq!(turn, HostTurn::Ask(HostDialog::Connection { name: s("lab") }));
    let turn = add_host_interactive(HostDialog::Connection { name: s("lab") }, "me@lab\n", &config);
    assert_eq!(turn, HostTurn::Ask(HostDialog::Port { name: s("lab"), connection: s("me@lab") }));
    let turn = add_host_interactive(
        HostDialog::Port { name: s("lab"), connection: s("me@lab") },
        "\n",
        &config,
    );
    assert_eq!(
        turn,
        HostTurn::Ask(HostDialog::Key { name: s("lab"), connection: s("me@lab"), port: 22 })
    );
    let turn = add_host_interactive(
        HostDialog::Key { name: s("lab"), connection: s("me@lab"), port: 22 },
        " ~/.ssh/lab \n",
        &config,
    );
    assert_eq!(
        turn,
        HostTurn::Ask(HostDialog::Confirm {
            name: s("lab"),
            connection: s("me@lab"),
            port: 22,
            key_path: Some(s("~/.ssh/lab")),
        })
    );
    let turn = add_host_interactive(
        HostDialog::Confirm {
            name: s("lab"),
            connection: s("me@lab"),
            port: 22,
            key_path: Some(s("~/.ssh/lab")),
        },
        " YES\n",
        &config,
    );
    assert_eq!(
        turn,
        HostTurn::Add {
            name: s("lab"),
            connection: s("me@lab"),
            port: 22,
            key_path: Some(s("~/.ssh/lab")),
        }
    );
}

#[test]
fn host_dialog_stops() {
    let config = store();
    assert_eq!(
        add_host_interactive(HostDialog::Name, " \t\n", &config),
        HostTurn::Stop(HostStop::NameMissing)
    );
    assert_eq!(
        add_host_interactive(HostDialog::Name, "prod\n", &config),
        HostTurn::Stop(HostStop::AlreadyExists { name: s("prod") })
    );
    assert_eq!(
        add_host_interactive(HostDialog::Connection { name: s("lab") }, "\n", &config),
        HostTurn::Stop(HostStop::ConnectionMissing)
    );
    assert_eq!(
        add_host_interactive(
            HostDialog::Port { name: s("lab"), connection: s("me@lab") },
            "70000\n",
            &config
        ),
        HostTurn::Stop(HostStop::InvalidPort)
    );
    assert_eq!(
        add_host_interactive(
            HostDialog::Port { name: s("lab"), connection: s("me@lab") },
            "2 2\n",
            &config
        ),
        HostTurn::Stop(HostStop::InvalidPort)
    );
    for answer in ["\n", "n\n", "no\n", "yes please\n"] {
        assert_eq!(
            add_host_interactive(
                HostDialog::Confirm {
                    name: s("lab"),
                    connection: s("me@lab"),
                    port: 22,
                    key_path: None
                },
                answer,
                &config
            ),
            HostTurn::Stop(HostStop::Cancelled)
        );
    }
}

#[test]
fn host_dialog_port_and_empty_key() {
    let config = store();
    assert_eq!(
        add_host_interactive(
            HostDialog::Port { name: s("lab"), connection: s("me@lab") },
            " 2222 \n",
            &config
        ),
        HostTurn::Ask(HostDialog::Key { name: s("lab"), connection: s("me@lab"), port: 2222 })
    );
    assert_eq!(
        add_host_interactive(
            HostDialog::Key { name: s("lab"), connection: s("me@lab"), port: 2222 },
            "  \n",
            &config
        ),
        HostTurn::Ask(HostDialog::Confirm {
            name: s("lab"),
            connection: s("me@lab"),
            port: 2222,
            key_path: None,
        })
    );
}

#[test]
fn path_dialog_picks_the_branch() {
    assert_eq!(
        add_path_interactive(PathDialog::Kind, "1\n", &Config::default()),
        PathTurn::Ask(PathDialog::LocalName)
    );
    assert_eq!(
        add_path_interactive(PathDialog::Kind, " 2 \n", &store()),
        PathTurn::Ask(PathDialog::RemoteHost)
    );
    assert_eq!(
        add_path_interactive(PathDialog::Kind, "2\n", &Config::default()),
        PathTurn::Stop(PathStop::NoHosts)
    );
    for answer in ["\n", "3\n", "12\n", "local\n", "+1\n"] {
        assert_eq!(
            add_path_interactive(PathDialog::Kind, answer, &store()),
            PathTurn::Stop(PathStop::InvalidChoice)
        );
    }
}

#[test]
fn local_branch_runs_to_the_end() {
    let config = Config::default();
    assert_eq!(
        add_path_interactive(PathDialog::LocalName, " docs\n", &config),
        PathTurn::Ask(PathDialog::LocalPath { name: s("docs") })
    );
    assert_eq!(
        add_path_interactive(PathDialog::LocalPath { name: s("docs") }, "~/docs\n", &config),
        PathTurn::Ask(PathDialog::LocalConfirm { name: s("docs"), path: s("~/docs") })
    );
    assert_eq!(
        add_path_interactive(
            PathDialog::LocalConfirm { name: s("docs"), path: s("~/docs") },
            "Y\n",
            &config
        ),
        PathTurn::AddLocal { name: s("docs"), path: s("~/docs") }
    );
}

#[test]
fn local_branch_stops() {
    let config = Config::default();
    assert_eq!(
        add_path_interactive(PathDialog::LocalName, "\n", &config),
        PathTurn::Stop(PathStop::NameMissing)
    );
    assert_eq!(
        add_path_interactive(PathDialog::LocalPath { name: s("docs") }, "  \n", &config),
        PathTurn::Stop(PathStop::PathMissing)
    );
    assert_eq!(
        add_path_interactive(
            PathDialog::LocalConfirm { name: s("docs"), path: s("/d") },
            "N\n",
            &config
        ),
        PathTurn::Stop(PathStop::Cancelled)
    );
}

#[test]
fn remote_branch_runs_to_the_end() {
    let config = store();
    assert_eq!(
        add_path_interactive(PathDialog::RemoteHost, "prod\n", &config),
        PathTurn::Ask(PathDialog::RemoteName { host: s("prod") })
    );
    assert_eq!(
        add_path_interactive(PathDialog::RemoteName { host: s("prod") }, "logs\n", &config),
        PathTurn::Ask(PathDialog::RemotePath { host: s("prod"), name: s("logs") })
    );
    assert_eq!(
        add_path_interactive(
            PathDialog::RemotePath { host: s("prod"), name: s("logs") },
            "/var/log\n",
            &config
        ),
        PathTurn::Ask(PathDialog::RemoteConfirm {
            host: s("prod"),
            name: s("logs"),
            path: s("/var/log"),
        })
    );
    assert_eq!(
        add_path_interactive(
            PathDialog::RemoteConfirm { host: s("prod"), name: s("logs"), path: s("/var/log") },
            "yes\n",
            &config
        ),
        PathTurn::AddRemote { host: s("prod"), name: s("logs"), path: s("/var/log") }
    );
}

#[test]
fn remote_branch_stops() {
    let config = store();
    assert_eq!(
        add_path_interactive(PathDialog::RemoteHost, "lab\n", &config),
        PathTurn::Stop(PathStop::UnknownHost { host: s("lab") })
    );
    assert_eq!(
        add_path_interactive(PathDialog::RemoteHost, "\n", &config),
        PathTurn::Stop(PathStop::UnknownHost { host: s("") })
    );
    assert_eq!(
        add_path_interactive(PathDialog::RemoteName { host: s("prod") }, "\n", &config),
        PathTurn::Stop(PathStop::NameMissing)
    );
    assert_eq!(
        add_path_interactive(
            PathDialog::RemotePath { host: s("prod"), name: s("logs") },
            "\n",
            &config
        ),
        PathTurn::Stop(PathStop::PathMissing)
    );
    assert_eq!(
        add_path_interactive(
            PathDialog::RemoteConfirm { host: s("prod"), name: s("logs"), path: s("/l") },
            "\n",
            &config
        ),
        PathTurn::Stop(PathStop::Cancelled)
    );
}

#[test]
fn branch_steps_take_trimmed_answers_as_they_are() {
    assert_eq!(
        add_local_path_interactive(PathDialog::LocalName, " docs "),
        PathTurn::Ask(PathDialog::LocalPath { name: s(" docs ") })
    );
    assert_eq!(
        add_remote_path_interactive(PathDialog::RemoteHost, "prod ", &store()),
        PathTurn::Stop(PathStop::UnknownHost { host: s("prod ") })
    );
    // A state of the other branch is no state to step from.
    assert_eq!(
        add_local_path_interactive(PathDialog::RemoteHost, "x"),
        PathTurn::Stop(PathStop::InvalidChoice)
    );
    assert_eq!(
        add_remote_path_interactive(PathDialog::Kind, "x", &store()),
        PathTurn::Stop(PathStop::InvalidChoice)
    );
}
