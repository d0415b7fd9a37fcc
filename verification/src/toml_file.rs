//! The configuration file as a store of values that can be asked for one
//! field at a time.

use vstd::prelude::*;
use crate::error::{ConfigFileError, ConfigFileErrorView};
use crate::value::{copy_entries, entries_view, find, lookup, TableView, Value, ValueView};

verus! {

/// A configuration file that has been read: named values at the top level,
/// some of them tables that hold the settings of one subcommand each.
///
/// Where a name occurs twice, the first occurrence counts.
#[derive(Debug, PartialEq, Eq)]
pub struct TomlFile {
    file_data: Vec<(String, Value)>,
}

impl View for TomlFile {
    type V = TableView;

    closed spec fn view(&self) -> TableView {
        entries_view(self.file_data@)
    }
}

impl Clone for TomlFile {
    fn clone(&self) -> (r: Self)
        ensures
            r@ == self@,
    {
        TomlFile { file_data: copy_entries(&self.file_data) }
    }
}

/// The value that the entries of a file give to the top-level field
/// `field_name`, if they have it.
pub open spec fn top_level_value(entries: TableView, field_name: Seq<char>) -> Option<ValueView> {
    lookup(entries, field_name)
}

/// The value that the entries of a file give to `field_name` inside the table
/// `table_name`, if they have that table and the table has that field.
pub open spec fn table_value(
    entries: TableView,
    table_name: Seq<char>,
    field_name: Seq<char>,
) -> Option<ValueView> {
    match lookup(entries, table_name) {
        Some(table) => table.field(field_name),
        None => None,
    }
}

impl TomlFile {
    /// Makes the store from what reading and parsing the file at
    /// `config_path` gave: its top-level entries, or `None` where the file
    /// could not be read or parsed. A file that is missing is an error, not
    /// an empty store.
    pub fn new(config_path: &str, loaded: Option<Vec<(String, Value)>>) -> (r: Result<
        Self,
        ConfigFileError,
    >)
        ensures
            match loaded {
                Some(entries) => r matches Ok(file) && file@ == entries_view(entries@),
                None => r matches Err(e) && e@ == (ConfigFileErrorView::NotFound {
                    path: config_path@,
                }),
            },
    {
        match loaded {
            Some(entries) => Ok(TomlFile { file_data: entries }),
            None => Err(ConfigFileError::NotFound { path: config_path.to_owned() }),
        }
    }

    /// The value of `field_name` in the table `table_name`. Where the table
    /// is absent, is no table, or lacks the field, the error names both.
    pub fn try_get_value_from_table(&self, table_name: &str, field_name: &str) -> (r: Result<
        &Value,
        ConfigFileError,
    >)
        ensures
            match table_value(self@, table_name@, field_name@) {
                Some(value) => r matches Ok(v) && v@ == value,
                None => r matches Err(e) && e@ == (ConfigFileErrorView::FieldNotFound {
                    table_name: Some(table_name@),
                    field_name: field_name@,
                }),
            },
    {
        let found: Option<&Value> = match find(&self.file_data, table_name) {
            Some(table) => table.get(field_name),
            None => None,
        };
        match found {
            Some(value) => Ok(value),
            None => Err(
                ConfigFileError::FieldNotFound {
                    table_name: Some(table_name.to_owned()),
                    field_name: field_name.to_owned(),
                },
            ),
        }
    }

    /// The value of the top-level field `field_name`. Where the file lacks
    /// it, the error names the field and no table.
    pub fn try_get_value(&self, field_name: &str) -> (r: Result<&Value, ConfigFileError>)
        ensures
            match top_level_value(self@, field_name@) {
                Some(value) => r matches Ok(v) && v@ == value,
                None => r matches Err(e) && e@ == (ConfigFileErrorView::FieldNotFound {
                    table_name: None,
                    field_name: field_name@,
                }),
            },
    {
        match find(&self.file_data, field_name) {
            Some(value) => Ok(value),
            None => Err(
                ConfigFileError::FieldNotFound {
                    table_name: None,
                    field_name: field_name.to_owned(),
                },
            ),
        }
    }
}

} // verus!
