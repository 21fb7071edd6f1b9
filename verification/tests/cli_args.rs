use std::{path::PathBuf, time::Duration};

use ucli::cli_args::{get_cli_args, parse_args, CliArgs, DiscoveryArgs, Matches, Subcommand};

fn matches_of(subcommand: Option<&str>) -> Matches {
    Matches {
        subcommand: subcommand.map(str::to_string),
        command: None,
        args: None,
        path: None,
        project: None,
        session: None,
        discovery_timeout: None,
    }
}

// ucli list-sessions --path foo/bar/baz
#[test]
fn parse_list_sessions_subcommand() {
    let matches = Matches {
        path: Some(PathBuf::from("foo/bar/baz")),
        ..matches_of(Some("list-sessions"))
    };
    let parsed = parse_args(matches);

    assert_eq!(
        CliArgs::ListSessions {
            discovery_args: DiscoveryArgs {
                path: Some(PathBuf::from("foo/bar/baz")),
                project: None,
                session: None,
                discovery_timeout: None,
            }
        },
        parsed
    );
}

// ucli compile
#[test]
fn parse_compile_command() {
    let matches = matches_of(Some("compile"));
    let parsed = parse_args(matches);

    assert_eq!(
        CliArgs::Compile {
            discovery_args: DiscoveryArgs {
                path: None,
                project: None,
                session: None,
                discovery_timeout: None,
            }
        },
        parsed
    );
}

// ucli run --discovery-timeout 500 --session foo-bar foo -- --bar baz -- foo/bar
#[test]
fn parse_run_command() {
    let matches = Matches {
        command: Some("foo".to_owned()),
        args: Some(vec!["--bar", "baz", "--", "foo/bar"].iter().map(|s| s.to_string()).collect()),
        session: Some(String::from("foo-bar")),
        discovery_timeout: Some(500),
        ..matches_of(Some("run"))
    };
    let parsed = parse_args(matches);

    assert_eq!(
        CliArgs::Run {
            command: "foo".to_owned(),
            args: vec!["--bar", "baz", "--", "foo/bar"].iter().map(|s| s.to_string()).collect(),
            discovery_args: DiscoveryArgs {
                path: None,
                project: None,
                session: Some(String::from("foo-bar")),
                discovery_timeout: Some(Duration::from_millis(500)),
            }
        },
        parsed
    );
}

// ucli list-commands --project "My Unity Project"
#[test]
fn parse_list_command_command() {
    let matches = Matches {
        project: Some(String::from("My Unity Project")),
        ..matches_of(Some("list-commands"))
    };
    let parsed = parse_args(matches);

    assert_eq!(
        CliArgs::ListCommands {
            discovery_args: DiscoveryArgs {
                path: None,
                project: Some(String::from("My Unity Project")),
                session: None,
                discovery_timeout: None,
            }
        },
        parsed
    );
}

#[test]
fn command_line_without_a_subcommand_gives_nothing() {
    assert_eq!(get_cli_args(matches_of(None)), None);
    let with_values = Matches {
        command: Some("foo".to_string()),
        args: Some(Vec::new()),
        project: Some("p".to_string()),
        ..matches_of(None)
    };
    assert_eq!(get_cli_args(with_values), None);
}

#[test]
fn run_needs_a_command_and_its_arguments() {
    let no_command = Matches { args: Some(Vec::new()), ..matches_of(Some("run")) };
    assert_eq!(get_cli_args(no_command), None);
    let no_args =
        Matches { command: Some("foo".to_string()), ..matches_of(Some("run")) };
    assert_eq!(get_cli_args(no_args), None);
    let complete = Matches {
        command: Some("foo".to_string()),
        args: Some(Vec::new()),
        ..matches_of(Some("run"))
    };
    assert_eq!(
        get_cli_args(complete),
        Some(CliArgs::Run {
            command: "foo".to_string(),
            args: Vec::new(),
            discovery_args: DiscoveryArgs {
                path: None,
                project: None,
                session: None,
                discovery_timeout: None,
            }
        })
    );
}

#[test]
fn every_discovery_argument_is_carried_over() {
    for subcommand in ["list-sessions", "compile", "list-commands"] {
        let matches = Matches {
            subcommand: Some(subcommand.to_string()),
            command: Some("ignored".to_string()),
            args: None,
            path: Some(PathBuf::from("/a/b")),
            project: Some("proj".to_string()),
            session: Some("sess".to_string()),
            discovery_timeout: Some(0),
        };
        let discovery_args = DiscoveryArgs {
            path: Some(PathBuf::from("/a/b")),
            project: Some("proj".to_string()),
            session: Some("sess".to_string()),
            discovery_timeout: Some(Duration::from_millis(0)),
        };
        let expected = match subcommand {
            "list-sessions" => CliArgs::ListSessions { discovery_args },
            "compile" => CliArgs::Compile { discovery_args },
            _ => CliArgs::ListCommands { discovery_args },
        };
        assert_eq!(get_cli_args(matches), Some(expected));
    }
}

#[test]
fn timeout_is_in_milliseconds() {
    let matches =
        Matches { discovery_timeout: Some(u64::MAX), ..matches_of(Some("compile")) };
    match get_cli_args(matches) {
        Some(CliArgs::Compile { discovery_args }) => {
            assert_eq!(discovery_args.discovery_timeout, Some(Duration::from_millis(u64::MAX)));
            assert_ne!(discovery_args.discovery_timeout, Some(Duration::from_secs(u64::MAX)));
        }
        _ => panic!(),
    }
}

#[test]
fn subcommands_go_by_their_names() {
    assert_eq!(Subcommand::named(&"list-sessions".to_string()), Some(Subcommand::ListSessions));
    assert_eq!(Subcommand::named(&"compile".to_string()), Some(Subcommand::Compile));
    assert_eq!(Subcommand::named(&"run".to_string()), Some(Subcommand::Run));
    assert_eq!(Subcommand::named(&"list-commands".to_string()), Some(Subcommand::ListCommands));
    assert_eq!(Subcommand::named(&"list".to_string()), None);
    assert_eq!(Subcommand::named(&"Run".to_string()), None);
    assert_eq!(Subcommand::named(&String::new()), None);
    assert_eq!(get_cli_args(matches_of(Some("ucli"))), None);
}
