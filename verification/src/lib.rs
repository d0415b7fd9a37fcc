//! Layered configuration for a command-line tool.
//!
//! A setting can come from four places. A flag on the command line wins over
//! an environment variable, which wins over the configuration file, which
//! wins over the default that is compiled in. The argument parser settles the
//! first two and the last among themselves and says, for each argument, where
//! its value came from; this library puts the file in its place between them.
//!
//! The library reads no command line and no file. Its caller hands it the
//! parsed arguments as an [`arg_matches::ArgMatches`] and the parsed file as
//! [`value::Value`]s, and it proceeds in three steps:
//!
//! 1. [`app::App::subcommand`] classifies the subcommand that was invoked;
//! 2. [`config::Config::config_path`] says which file to read;
//! 3. [`config::Config::new`] resolves the configuration from the arguments
//!    and from what reading that file gave.
//!
//! What the order of precedence promises of each field is stated and proved
//! in [`precedence`].

pub mod app;
pub mod arg_matches;
pub mod config;
pub mod error;
pub mod hierarchical;
pub mod kind;
pub mod precedence;
pub mod subcommand;
pub mod text;
pub mod toml_file;
pub mod value;
