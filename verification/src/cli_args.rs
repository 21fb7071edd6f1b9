//! The arguments of the command line client, as values.
//!
//! The command line itself is taken apart by the program. What it found
//! comes here as a `Matches`; `get_cli_args` turns it into the command to run.

use vstd::prelude::*;
use std::path::PathBuf;
use std::time::Duration;

verus! {

/// `std::path::PathBuf`. A path is carried through as it is; nothing here
/// looks into one.
#[verifier::external_type_specification]
#[verifier::external_body]
pub struct ExPathBuf(PathBuf);

/// The duration of `millis` milliseconds.
pub uninterp spec fn spec_duration_of_millis(millis: u64) -> Duration;

/// The duration of `millis` milliseconds.
///
/// Calls `Duration::from_millis`. The contract claims no more than that the
/// duration depends on the number of milliseconds alone.
#[verifier::external_body]
pub(crate) fn duration_from_millis(millis: u64) -> (duration: Duration)
    ensures
        duration == spec_duration_of_millis(millis),
{
    Duration::from_millis(millis)
}

/// How to find the session to talk to.
#[derive(Debug, PartialEq)]
pub struct DiscoveryArgs {
    pub path: Option<PathBuf>,
    pub project: Option<String>,
    pub session: Option<String>,
    pub discovery_timeout: Option<Duration>,
}

/// What the client is asked to do.
#[derive(Debug, PartialEq)]
pub enum CliArgs {
    ListSessions { discovery_args: DiscoveryArgs },
    Compile { discovery_args: DiscoveryArgs },
    Run { command: String, args: Vec<String>, discovery_args: DiscoveryArgs },
    ListCommands { discovery_args: DiscoveryArgs },
}

/// The subcommand of a command line.
#[derive(Debug, Clone, Copy, PartialEq, Eq)]
pub enum Subcommand {
    ListSessions,
    Compile,
    Run,
    ListCommands,
}

impl Subcommand {
    /// The subcommand that goes by `name` on the command line.
    pub open spec fn spec_named(name: Seq<char>) -> Option<Subcommand> {
        if name == "list-sessions"@ {
            Some(Subcommand::ListSessions)
        } else if name == "compile"@ {
            Some(Subcommand::Compile)
        } else if name == "run"@ {
            Some(Subcommand::Run)
        } else if name == "list-commands"@ {
            Some(Subcommand::ListCommands)
        } else {
            None
        }
    }

    /// The subcommand that goes by `name` on the command line, or `None` if
    /// there is no such subcommand.
    pub fn named(name: &String) -> (subcommand: Option<Subcommand>)
        ensures
            subcommand == Subcommand::spec_named(name@),
    {
        if *name == "list-sessions".to_owned() {
            Some(Subcommand::ListSessions)
        } else if *name == "compile".to_owned() {
            Some(Subcommand::Compile)
        } else if *name == "run".to_owned() {
            Some(Subcommand::Run)
        } else if *name == "list-commands".to_owned() {
            Some(Subcommand::ListCommands)
        } else {
            None
        }
    }
}

/// What was found on a command line: the name of the subcommand, if one was
/// given, and the value of each argument that was given with it.
#[derive(Debug, PartialEq)]
pub struct Matches {
    pub subcommand: Option<String>,
    pub command: Option<String>,
    pub args: Option<Vec<String>>,
    pub path: Option<PathBuf>,
    pub project: Option<String>,
    pub session: Option<String>,
    pub discovery_timeout: Option<u64>,
}

impl Matches {
    /// The subcommand that the command line names, if it names one that
    /// there is.
    pub open spec fn spec_subcommand(self) -> Option<Subcommand> {
        match self.subcommand {
            None => None,
            Some(name) => Subcommand::spec_named(name@),
        }
    }

    /// Whether the command line names a subcommand and gives it what it
    /// cannot do without: a `run` needs a command and its arguments.
    pub open spec fn spec_complete(self) -> bool {
        match self.spec_subcommand() {
            None => false,
            Some(Subcommand::Run) => self.command is Some && self.args is Some,
            Some(_) => true,
        }
    }
}

/// The discovery arguments given on a command line: each value as it was
/// given, the timeout as a duration of that many milliseconds.
pub open spec fn spec_discovery_args(matches: Matches) -> DiscoveryArgs {
    DiscoveryArgs {
        path: matches.path,
        project: matches.project,
        session: matches.session,
        discovery_timeout: match matches.discovery_timeout {
            Some(millis) => Some(spec_duration_of_millis(millis)),
            None => None,
        },
    }
}

/// The command that a complete command line asks for.
pub open spec fn spec_cli_args(matches: Matches) -> CliArgs
    recommends
        matches.spec_complete(),
{
    match matches.spec_subcommand() {
        Some(Subcommand::Compile) => CliArgs::Compile {
            discovery_args: spec_discovery_args(matches),
        },
        Some(Subcommand::ListCommands) => CliArgs::ListCommands {
            discovery_args: spec_discovery_args(matches),
        },
        Some(Subcommand::Run) => CliArgs::Run {
            command: matches.command.unwrap(),
            args: matches.args.unwrap(),
            discovery_args: spec_discovery_args(matches),
        },
        _ => CliArgs::ListSessions { discovery_args: spec_discovery_args(matches) },
    }
}

/// The command that a complete command line asks for, or `None` for one that
/// names no subcommand or leaves out what its subcommand needs.
pub fn get_cli_args(matches: Matches) -> (found: Option<CliArgs>)
    ensures
        found == if matches.spec_complete() {
            Some(spec_cli_args(matches))
        } else {
            None
        },
{
    let complete = match &matches.subcommand {
        None => false,
        Some(name) => match Subcommand::named(name) {
            None => false,
            Some(Subcommand::Run) => matches.command.is_some() && matches.args.is_some(),
            Some(_) => true,
        },
    };
    if complete {
        Some(parse_args(matches))
    } else {
        None
    }
}

/// The command that a complete command line asks for.
pub fn parse_args(matches: Matches) -> (found: CliArgs)
    requires
        matches.spec_complete(),
    ensures
        found == spec_cli_args(matches),
{
    let Matches { subcommand, command, args, path, project, session, discovery_timeout } = matches;
    let discovery_args = parse_discovery_args(path, project, session, discovery_timeout);
    match Subcommand::named(&subcommand.unwrap()).unwrap() {
        Subcommand::ListSessions => CliArgs::ListSessions { discovery_args },
        Subcommand::Compile => CliArgs::Compile { discovery_args },
        Subcommand::Run => CliArgs::Run {
            command: command.unwrap(),
            args: args.unwrap(),
            discovery_args,
        },
        Subcommand::ListCommands => CliArgs::ListCommands { discovery_args },
    }
}

/// The discovery arguments made of the values given on a command line.
fn parse_discovery_args(
    path: Option<PathBuf>,
    project: Option<String>,
    session: Option<String>,
    discovery_timeout: Option<u64>,
) -> (found: DiscoveryArgs)
    ensures
        found == (DiscoveryArgs {
            path,
            project,
            session,
            discovery_timeout: match discovery_timeout {
                Some(millis) => Some(spec_duration_of_millis(millis)),
                None => None,
            },
        }),
{
    DiscoveryArgs {
        path,
        project,
        session,
        discovery_timeout: match discovery_timeout {
            Some(millis) => Some(duration_from_millis(millis)),
            None => None,
        },
    }
}

} // verus!
