//! The errors that resolving a configuration can end in.

use vstd::prelude::*;
use crate::text::{copy_text, text_of};

verus! {

/// Why the command line could not be used at all.
#[derive(Clone, Copy, Debug, PartialEq, Eq, Structural)]
pub enum AppError {
    /// No subcommand was given on the command line.
    SubCommandNotPresent,
    /// Any other failure of the application.
    Unknown,
}

/// Why a subcommand could not be classified.
#[derive(Clone, Copy, Debug, PartialEq, Eq, Structural)]
pub enum SubCommandError {
    /// The subcommand's name is none of the known kinds.
    Unknown,
}

/// Why the configuration file could not answer a question.
#[derive(Debug, PartialEq, Eq)]
pub enum ConfigFileError {
    /// The file holds no such field; `table_name` is `None` for a field
    /// that was looked up outside any table.
    FieldNotFound { table_name: Option<String>, field_name: String },
    /// The file at `path` could not be read or parsed.
    NotFound { path: String },
    /// Any other failure of the configuration file.
    Unknown,
}

/// What a `ConfigFileError` says, with every text as a sequence of characters.
pub enum ConfigFileErrorView {
    FieldNotFound { table_name: Option<Seq<char>>, field_name: Seq<char> },
    NotFound { path: Seq<char> },
    Unknown,
}

impl View for ConfigFileError {
    type V = ConfigFileErrorView;

    open spec fn view(&self) -> ConfigFileErrorView {
        match *self {
            ConfigFileError::FieldNotFound { table_name, field_name } => {
                ConfigFileErrorView::FieldNotFound {
                    table_name: text_of(table_name),
                    field_name: field_name@,
                }
            },
            ConfigFileError::NotFound { path } => ConfigFileErrorView::NotFound { path: path@ },
            ConfigFileError::Unknown => ConfigFileErrorView::Unknown,
        }
    }
}

impl Clone for ConfigFileError {
    fn clone(&self) -> (r: Self)
        ensures
            r@ == self@,
    {
        match self {
            ConfigFileError::FieldNotFound { table_name, field_name } => {
                ConfigFileError::FieldNotFound {
                    table_name: copy_text(table_name),
                    field_name: field_name.clone(),
                }
            },
            ConfigFileError::NotFound { path } => ConfigFileError::NotFound { path: path.clone() },
            ConfigFileError::Unknown => ConfigFileError::Unknown,
        }
    }
}

/// Every way in which resolving a configuration can fail.
#[derive(Debug, PartialEq, Eq)]
pub enum ConfigError {
    /// The command line named no subcommand.
    App(AppError),
    /// The subcommand is not one that has a configuration.
    SubCommand(SubCommandError),
    /// The configuration file is missing, or lacks a field that is required.
    ConfigFile(ConfigFileError),
    /// The file's value of `field_name` cannot be read as the type that the
    /// field is declared with.
    TypeConversion { field_name: String },
}

/// What a `ConfigError` says, with every text as a sequence of characters.
pub enum ConfigErrorView {
    App(AppError),
    SubCommand(SubCommandError),
    ConfigFile(ConfigFileErrorView),
    TypeConversion { field_name: Seq<char> },
}

impl View for ConfigError {
    type V = ConfigErrorView;

    open spec fn view(&self) -> ConfigErrorView {
        match *self {
            ConfigError::App(e) => ConfigErrorView::App(e),
            ConfigError::SubCommand(e) => ConfigErrorView::SubCommand(e),
            ConfigError::ConfigFile(e) => ConfigErrorView::ConfigFile(e@),
            ConfigError::TypeConversion { field_name } => ConfigErrorView::TypeConversion {
                field_name: field_name@,
            },
        }
    }
}

impl Clone for ConfigError {
    fn clone(&self) -> (r: Self)
        ensures
            r@ == self@,
    {
        match self {
            ConfigError::App(e) => ConfigError::App(*e),
            ConfigError::SubCommand(e) => ConfigError::SubCommand(*e),
            ConfigError::ConfigFile(e) => ConfigError::ConfigFile(e.clone()),
            ConfigError::TypeConversion { field_name } => ConfigError::TypeConversion {
                field_name: field_name.clone(),
            },
        }
    }
}

} // verus!
