//! Resolution that starts from the name of the subcommand, as the command
//! line gives it.

use vstd::prelude::*;
use crate::arg_matches::{ArgMatches, ArgView};
use crate::config::{resolved_config, Config, ConfigView};
use crate::error::{ConfigError, ConfigErrorView, SubCommandError};
use crate::kind::{kind_named, parse_kind};
use crate::value::{entries_view, TableView, Value};

verus! {

/// The configuration that the subcommand called `name` resolves to. A name
/// that is no kind of subcommand is an error, whatever else is given.
pub open spec fn resolved_by_name(
    name: Seq<char>,
    args: Seq<ArgView>,
    loaded: Option<TableView>,
) -> Result<ConfigView, ConfigErrorView> {
    match kind_named(name) {
        Some(kind) => resolved_config(kind, args, loaded),
        None => Err(ConfigErrorView::SubCommand(SubCommandError::Unknown)),
    }
}

/// A configuration that was resolved from all its sources. It has exactly
/// one of the three sections.
#[derive(Debug, PartialEq, Eq)]
pub struct HierarchicalConfig {
    config: Config,
}

impl View for HierarchicalConfig {
    type V = ConfigView;

    closed spec fn view(&self) -> ConfigView {
        self.config@
    }
}

impl Clone for HierarchicalConfig {
    fn clone(&self) -> (r: Self)
        ensures
            r@ == self@,
    {
        proof {
            use_type_invariant(self);
        }
        HierarchicalConfig { config: self.config.clone() }
    }
}

impl HierarchicalConfig {
    #[verifier::type_invariant]
    spec fn has_one_section(self) -> bool {
        self.config@.sections() == 1
    }

    /// Resolves the configuration of the subcommand called `name`.
    ///
    /// `matches` are its parsed arguments, and `loaded` is what reading and
    /// parsing the file that the argument `config_path` names gave: its
    /// top-level entries, or `None` where it could not be read or parsed.
    pub fn new(name: &str, matches: &ArgMatches, loaded: Option<Vec<(String, Value)>>) -> (r:
        Result<Self, ConfigError>)
        ensures
            match resolved_by_name(
                name@,
                matches@,
                match loaded {
                    Some(entries) => Some(entries_view(entries@)),
                    None => None,
                },
            ) {
                Ok(config) => r matches Ok(h) && h@ == config && config.sections() == 1,
                Err(error) => r matches Err(e) && e@ == error,
            },
    {
        let kind = match parse_kind(name) {
            Some(kind) => kind,
            None => {
                return Err(ConfigError::SubCommand(SubCommandError::Unknown));
            },
        };
        match Config::new(kind, matches.clone(), loaded) {
            Ok(config) => Ok(HierarchicalConfig { config }),
            Err(e) => Err(e),
        }
    }

    /// The resolved configuration, which has exactly one section.
    pub fn config(&self) -> (r: &Config)
        ensures
            r@ == self@,
            r@.sections() == 1,
    {
        proof {
            use_type_invariant(self);
        }
        &self.config
    }
}

} // verus!
