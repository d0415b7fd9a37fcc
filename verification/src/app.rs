//! The command line as a whole: which subcommand it invokes.

use vstd::prelude::*;
use crate::arg_matches::{ArgMatches, ArgView};
use crate::error::{AppError, ConfigError, ConfigErrorView, SubCommandError};
use crate::kind::{kind_named, Kind};

verus! {

/// A parsed command line: the name of the subcommand that it invokes, with
/// the arguments of that subcommand, or nothing where it invokes none.
#[derive(Debug, PartialEq, Eq)]
pub struct App {
    command: Option<(String, ArgMatches)>,
}

impl View for App {
    type V = Option<(Seq<char>, Seq<ArgView>)>;

    closed spec fn view(&self) -> Option<(Seq<char>, Seq<ArgView>)> {
        match self.command {
            Some(command) => Some((command.0@, command.1@)),
            None => None,
        }
    }
}

impl Clone for App {
    fn clone(&self) -> (r: Self)
        ensures
            r@ == self@,
    {
        App {
            command: match &self.command {
                Some(command) => Some((command.0.clone(), command.1.clone())),
                None => None,
            },
        }
    }
}

impl App {
    /// The command line that invokes the subcommand `command.0` with the
    /// arguments `command.1`, or none.
    pub fn new(command: Option<(String, ArgMatches)>) -> (r: Self)
        ensures
            r@ == match command {
                Some(c) => Some((c.0@, c.1@)),
                None => None,
            },
    {
        App { command }
    }

    /// The kind of the subcommand that was invoked, and its arguments.
    ///
    /// A command line without a subcommand is an error, and so is one whose
    /// subcommand is none of the known kinds.
    pub fn subcommand(self) -> (r: Result<(Kind, ArgMatches), ConfigError>)
        ensures
            match self@ {
                Some((name, args)) => match kind_named(name) {
                    Some(kind) => r matches Ok(found) && found.0 == kind && found.1@ == args,
                    None => r matches Err(e) && e@ == ConfigErrorView::SubCommand(
                        SubCommandError::Unknown,
                    ),
                },
                None => r matches Err(e) && e@ == ConfigErrorView::App(
                    AppError::SubCommandNotPresent,
                ),
            },
    {
        match self.command {
            None => Err(ConfigError::App(AppError::SubCommandNotPresent)),
            Some(command) => {
                let (name, matches) = command;
                match Kind::from_str(name.as_str()) {
                    Ok(kind) => Ok((kind, matches)),
                    Err(e) => Err(ConfigError::SubCommand(e)),
                }
            },
        }
    }
}

} // verus!
