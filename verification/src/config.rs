//! The resolved configuration, and the rules by which each of its fields
//! gets its value from the command line and the configuration file.

use vstd::prelude::*;
use crate::arg_matches::{
    default_ids,
    lemma_default_ids_contains,
    source_of,
    value_of,
    ArgMatches,
    ArgView,
};
use crate::error::{ConfigError, ConfigErrorView, ConfigFileError, ConfigFileErrorView};
use crate::kind::Kind;
use crate::subcommand::{SubCommand, SubCommandView};
use crate::text::{copy_text, strings_hold, text_of, texts_of};
use crate::toml_file::{table_value, top_level_value, TomlFile};
use crate::value::{entries_view, TableView, Value};

verus! {

/// The settings of the container subcommand.
#[derive(Debug, PartialEq, Eq)]
pub struct Container {
    pub name: Option<String>,
}

/// The settings of the directory subcommand.
#[derive(Debug, PartialEq, Eq)]
pub struct Directory {
    pub path: Option<String>,
}

/// The settings of the hadoop subcommand.
#[derive(Debug, PartialEq, Eq)]
pub struct Hadoop {
    pub path: Option<String>,
}

/// The configuration of one run: the global settings, and the settings of
/// the one subcommand that was invoked.
#[derive(Debug, PartialEq, Eq)]
pub struct Config {
    pub debug: Option<bool>,
    pub container: Option<Container>,
    pub directory: Option<Directory>,
    pub hadoop: Option<Hadoop>,
}

/// A `Container` with its text as a sequence of characters.
pub struct ContainerView {
    pub name: Option<Seq<char>>,
}

/// A `Directory` with its text as a sequence of characters.
pub struct DirectoryView {
    pub path: Option<Seq<char>>,
}

/// A `Hadoop` with its text as a sequence of characters.
pub struct HadoopView {
    pub path: Option<Seq<char>>,
}

/// A `Config` with every text as a sequence of characters.
pub struct ConfigView {
    pub debug: Option<bool>,
    pub container: Option<ContainerView>,
    pub directory: Option<DirectoryView>,
    pub hadoop: Option<HadoopView>,
}

impl View for Container {
    type V = ContainerView;

    open spec fn view(&self) -> ContainerView {
        ContainerView { name: text_of(self.name) }
    }
}

impl View for Directory {
    type V = DirectoryView;

    open spec fn view(&self) -> DirectoryView {
        DirectoryView { path: text_of(self.path) }
    }
}

impl View for Hadoop {
    type V = HadoopView;

    open spec fn view(&self) -> HadoopView {
        HadoopView { path: text_of(self.path) }
    }
}

impl View for Config {
    type V = ConfigView;

    open spec fn view(&self) -> ConfigView {
        ConfigView {
            debug: self.debug,
            container: match self.container {
                Some(c) => Some(c@),
                None => None,
            },
            directory: match self.directory {
                Some(d) => Some(d@),
                None => None,
            },
            hadoop: match self.hadoop {
                Some(h) => Some(h@),
                None => None,
            },
        }
    }
}

impl ConfigView {
    /// How many of the three sections are there.
    pub open spec fn sections(self) -> nat {
        let container: nat = if self.container is Some {
            1
        } else {
            0
        };
        let directory: nat = if self.directory is Some {
            1
        } else {
            0
        };
        let hadoop: nat = if self.hadoop is Some {
            1
        } else {
            0
        };
        container + directory + hadoop
    }

    /// This configuration is one for `kind`: it has the section of that
    /// kind and neither of the others.
    pub open spec fn is_for(self, kind: Kind) -> bool {
        &&& self.container is Some <==> kind == Kind::Container
        &&& self.directory is Some <==> kind == Kind::Directory
        &&& self.hadoop is Some <==> kind == Kind::Hadoop
    }

    /// The value of the one field that the section of `kind` holds.
    pub open spec fn field(self, kind: Kind) -> Option<Seq<char>> {
        match kind {
            Kind::Container => match self.container {
                Some(c) => c.name,
                None => None,
            },
            Kind::Directory => match self.directory {
                Some(d) => d.path,
                None => None,
            },
            Kind::Hadoop => match self.hadoop {
                Some(h) => h.path,
                None => None,
            },
        }
    }
}

/// The id of the one field that the subcommand `kind` has.
pub open spec fn field_id(kind: Kind) -> Seq<char> {
    match kind {
        Kind::Container => "name"@,
        Kind::Directory => "path"@,
        Kind::Hadoop => "path"@,
    }
}

/// The final value of the field `id` of a subcommand.
///
/// An id that is not among `default_ids` was supplied by the user: its value
/// is that of the command line, and the file is not asked. An id among them
/// takes the file's value from the table of the subcommand, read as text;
/// where the file has none, the default of the command line stays. A value
/// of the file that has no text is an error.
pub open spec fn resolved_value(
    id: Seq<char>,
    default_ids: Seq<Seq<char>>,
    file: TableView,
    subcommand: SubCommandView,
) -> Result<Option<Seq<char>>, ConfigErrorView> {
    if default_ids.contains(id) {
        match table_value(file, subcommand.kind.name_spec(), id) {
            Some(value) => match value.text() {
                Some(text) => Ok(Some(text)),
                None => Err(ConfigErrorView::TypeConversion { field_name: id }),
            },
            None => Ok(value_of(subcommand.args, id)),
        }
    } else {
        Ok(value_of(subcommand.args, id))
    }
}

/// The final value of the global setting `debug`: what the top level of the
/// file says, read as a boolean, or nothing where the file does not say.
pub open spec fn resolved_debug(file: TableView) -> Result<
    Option<bool>,
    ConfigErrorView,
> {
    match top_level_value(file, "debug"@) {
        Some(value) => match value.truth() {
            Some(b) => Ok(Some(b)),
            None => Err(ConfigErrorView::TypeConversion { field_name: "debug"@ }),
        },
        None => Ok(None),
    }
}

/// The configuration with the given `debug` and one section, that of `kind`,
/// which holds `value`.
pub open spec fn config_with(kind: Kind, debug: Option<bool>, value: Option<Seq<char>>) -> ConfigView {
    match kind {
        Kind::Container => ConfigView {
            debug,
            container: Some(ContainerView { name: value }),
            directory: None,
            hadoop: None,
        },
        Kind::Directory => ConfigView {
            debug,
            container: None,
            directory: Some(DirectoryView { path: value }),
            hadoop: None,
        },
        Kind::Hadoop => ConfigView {
            debug,
            container: None,
            directory: None,
            hadoop: Some(HadoopView { path: value }),
        },
    }
}

/// The configuration of a subcommand, given the ids that the file may
/// override and the value of `debug`: the section of the subcommand's kind
/// with its field resolved, and no other section.
pub open spec fn built_config(
    subcommand: SubCommandView,
    default_ids: Seq<Seq<char>>,
    file: TableView,
    debug: Option<bool>,
) -> Result<ConfigView, ConfigErrorView> {
    match resolved_value(field_id(subcommand.kind), default_ids, file, subcommand) {
        Ok(value) => Ok(config_with(subcommand.kind, debug, value)),
        Err(e) => Err(e),
    }
}

/// The path of the configuration file: the value of the argument
/// `config_path`, which every command line must have.
pub open spec fn config_path_of(args: Seq<ArgView>) -> Result<Seq<char>, ConfigErrorView> {
    match value_of(args, "config_path"@) {
        Some(path) => Ok(path),
        None => Err(
            ConfigErrorView::ConfigFile(
                ConfigFileErrorView::FieldNotFound {
                    table_name: None,
                    field_name: "config_path"@,
                },
            ),
        ),
    }
}

/// The file store of a command line, given what reading its configuration
/// file gave: the entries where there are some, an error where the command
/// line names no file or the file could not be had.
pub open spec fn parsed_file(args: Seq<ArgView>, loaded: Option<TableView>) -> Result<
    TableView,
    ConfigErrorView,
> {
    match config_path_of(args) {
        Ok(path) => match loaded {
            Some(entries) => Ok(entries),
            None => Err(ConfigErrorView::ConfigFile(ConfigFileErrorView::NotFound { path })),
        },
        Err(e) => Err(e),
    }
}

/// The configuration that a command line and a configuration file resolve
/// to. Every argument but `config_path` may be overridden by the file where
/// nobody supplied it.
pub open spec fn resolved_config(
    kind: Kind,
    args: Seq<ArgView>,
    loaded: Option<TableView>,
) -> Result<ConfigView, ConfigErrorView> {
    match parsed_file(args, loaded) {
        Ok(file) => match resolved_debug(file) {
            Ok(debug) => built_config(
                SubCommandView { kind, args },
                default_ids(args, seq!["config_path"@]),
                file,
                debug,
            ),
            Err(e) => Err(e),
        },
        Err(e) => Err(e),
    }
}

impl Container {
    /// A section without a name.
    pub fn new() -> (r: Self)
        ensures
            r@ == (ContainerView { name: None }),
    {
        Container { name: None }
    }
}

impl Directory {
    /// A section without a path.
    pub fn new() -> (r: Self)
        ensures
            r@ == (DirectoryView { path: None }),
    {
        Directory { path: None }
    }
}

impl Hadoop {
    /// A section without a path.
    pub fn new() -> (r: Self)
        ensures
            r@ == (HadoopView { path: None }),
    {
        Hadoop { path: None }
    }
}

impl Clone for Container {
    fn clone(&self) -> (r: Self)
        ensures
            r@ == self@,
    {
        Container { name: copy_text(&self.name) }
    }
}

impl Clone for Directory {
    fn clone(&self) -> (r: Self)
        ensures
            r@ == self@,
    {
        Directory { path: copy_text(&self.path) }
    }
}

impl Clone for Hadoop {
    fn clone(&self) -> (r: Self)
        ensures
            r@ == self@,
    {
        Hadoop { path: copy_text(&self.path) }
    }
}

impl Clone for Config {
    fn clone(&self) -> (r: Self)
        ensures
            r@ == self@,
    {
        Config {
            debug: self.debug,
            container: match &self.container {
                Some(c) => Some(c.clone()),
                None => None,
            },
            directory: match &self.directory {
                Some(d) => Some(d.clone()),
                None => None,
            },
            hadoop: match &self.hadoop {
                Some(h) => Some(h.clone()),
                None => None,
            },
        }
    }
}

impl Default for Container {
    fn default() -> (r: Self)
        ensures
            r@ == (ContainerView { name: None }),
    {
        Container::new()
    }
}

impl Default for Directory {
    fn default() -> (r: Self)
        ensures
            r@ == (DirectoryView { path: None }),
    {
        Directory::new()
    }
}

impl Default for Hadoop {
    fn default() -> (r: Self)
        ensures
            r@ == (HadoopView { path: None }),
    {
        Hadoop::new()
    }
}

impl Default for Config {
    /// The configuration that says nothing: no `debug` and no section.
    fn default() -> (r: Self)
        ensures
            r@ == (ConfigView { debug: None, container: None, directory: None, hadoop: None }),
    {
        Config { debug: None, container: None, directory: None, hadoop: None }
    }
}

impl Config {
    /// Resolves the configuration of one run.
    ///
    /// `kind` and `matches` are the subcommand that was invoked and its
    /// parsed arguments. `loaded` is what reading and parsing the file that
    /// the argument `config_path` names gave: its top-level entries, or
    /// `None` where it could not be read or parsed, which is an error.
    ///
    /// The configuration has the section of `kind` and no other. Where the
    /// user supplied the field of that section, by a flag or by the
    /// environment, it has the value that was supplied.
    pub fn new(kind: Kind, matches: ArgMatches, loaded: Option<Vec<(String, Value)>>) -> (r: Result<
        Self,
        ConfigError,
    >)
        ensures
            match resolved_config(
                kind,
                matches@,
                match loaded {
                    Some(entries) => Some(entries_view(entries@)),
                    None => None,
                },
            ) {
                Ok(config) => r matches Ok(c) && c@ == config && config.is_for(kind),
                Err(error) => r matches Err(e) && e@ == error,
            },
            match (r, source_of(matches@, field_id(kind))) {
                (Ok(c), Some(source)) => source.is_explicit() ==> c@.field(kind) == value_of(
                    matches@,
                    field_id(kind),
                ),
                _ => true,
            },
    {
        proof {
            use_type_invariant(&matches);
            lemma_default_ids_contains(matches@, seq!["config_path"@], field_id(kind));
        }
        let subcommand = SubCommand::new(kind, matches);
        let mut exclude: Vec<&str> = Vec::new();
        exclude.push("config_path");
        let default_ids = subcommand.try_get_default_value_matches(exclude.as_slice());
        proof {
            assert(exclude@.map_values(|s: &str| s@) =~= seq!["config_path"@]);
        }
        let config_file = match Self::parse_config_file(&subcommand, loaded) {
            Ok(file) => file,
            Err(e) => {
                return Err(e);
            },
        };
        let debug = match Self::resolve_debug(&config_file) {
            Ok(debug) => debug,
            Err(e) => {
                return Err(e);
            },
        };
        Self::build_config(&subcommand, &default_ids, &config_file, debug)
    }

    /// Puts the configuration of the subcommand together: `debug` as given,
    /// the section of the subcommand's kind with its field resolved, and
    /// neither of the other sections.
    pub fn build_config(
        subcommand: &SubCommand,
        default_ids: &Vec<String>,
        config_file: &TomlFile,
        debug: Option<bool>,
    ) -> (r: Result<Config, ConfigError>)
        ensures
            match built_config(subcommand@, texts_of(default_ids@), config_file@, debug) {
                Ok(config) => r matches Ok(c) && c@ == config && config.is_for(subcommand@.kind),
                Err(error) => r matches Err(e) && e@ == error,
            },
    {
        match subcommand.kind() {
            Kind::Container => {
                match Self::build_container_config(subcommand, default_ids, config_file) {
                    Ok(container) => Ok(
                        Config { debug, container: Some(container), directory: None, hadoop: None },
                    ),
                    Err(e) => Err(e),
                }
            },
            Kind::Directory => {
                match Self::build_directory_config(subcommand, default_ids, config_file) {
                    Ok(directory) => Ok(
                        Config { debug, container: None, directory: Some(directory), hadoop: None },
                    ),
                    Err(e) => Err(e),
                }
            },
            Kind::Hadoop => {
                match Self::build_hadoop_config(subcommand, default_ids, config_file) {
                    Ok(hadoop) => Ok(
                        Config { debug, container: None, directory: None, hadoop: Some(hadoop) },
                    ),
                    Err(e) => Err(e),
                }
            },
        }
    }

    /// The path of the configuration file, which only the command line can
    /// set. A command line without the argument is an error that names it.
    pub fn config_path(subcommand: &SubCommand) -> (r: Result<String, ConfigError>)
        ensures
            match config_path_of(subcommand@.args) {
                Ok(path) => r matches Ok(p) && p@ == path,
                Err(error) => r matches Err(e) && e@ == error,
            },
    {
        match subcommand.try_get_one_arg("config_path") {
            Some(path) => Ok(path),
            None => Err(
                ConfigError::ConfigFile(
                    ConfigFileError::FieldNotFound {
                        table_name: None,
                        field_name: "config_path".to_owned(),
                    },
                ),
            ),
        }
    }

    /// Makes the file store of the subcommand from what reading its
    /// configuration file gave. The error for a file that could not be had
    /// names the path that the command line gives.
    pub fn parse_config_file(subcommand: &SubCommand, loaded: Option<Vec<(String, Value)>>) -> (r:
        Result<TomlFile, ConfigError>)
        ensures
            match parsed_file(
                subcommand@.args,
                match loaded {
                    Some(entries) => Some(entries_view(entries@)),
                    None => None,
                },
            ) {
                Ok(entries) => r matches Ok(file) && file@ == entries,
                Err(error) => r matches Err(e) && e@ == error,
            },
    {
        let config_path = match Self::config_path(subcommand) {
            Ok(path) => path,
            Err(e) => {
                return Err(e);
            },
        };
        match TomlFile::new(config_path.as_str(), loaded) {
            Ok(file) => Ok(file),
            Err(e) => Err(ConfigError::ConfigFile(e)),
        }
    }

    /// Resolves the global setting `debug`, which only the file can set.
    pub fn resolve_debug(config_file: &TomlFile) -> (r: Result<Option<bool>, ConfigError>)
        ensures
            match resolved_debug(config_file@) {
                Ok(debug) => r == Ok::<Option<bool>, ConfigError>(debug),
                Err(error) => r matches Err(e) && e@ == error,
            },
    {
        match config_file.try_get_value("debug") {
            Ok(value) => match value.to_bool() {
                Some(b) => Ok(Some(b)),
                None => Err(ConfigError::TypeConversion { field_name: "debug".to_owned() }),
            },
            Err(_) => Ok(None),
        }
    }

    /// Resolves the hadoop section: its `path`.
    pub fn build_hadoop_config(
        subcommand: &SubCommand,
        default_ids: &Vec<String>,
        config_file: &TomlFile,
    ) -> (r: Result<Hadoop, ConfigError>)
        ensures
            match resolved_value("path"@, texts_of(default_ids@), config_file@, subcommand@) {
                Ok(path) => r matches Ok(h) && h@ == (HadoopView { path }),
                Err(error) => r matches Err(e) && e@ == error,
            },
    {
        let mut config = Hadoop::new();
        match Self::resolve_arg_value("path", default_ids, config_file, subcommand) {
            Ok(path) => {
                config.path = path;
                Ok(config)
            },
            Err(e) => Err(e),
        }
    }

    /// Resolves the directory section: its `path`.
    pub fn build_directory_config(
        subcommand: &SubCommand,
        default_ids: &Vec<String>,
        config_file: &TomlFile,
    ) -> (r: Result<Directory, ConfigError>)
        ensures
            match resolved_value("path"@, texts_of(default_ids@), config_file@, subcommand@) {
                Ok(path) => r matches Ok(d) && d@ == (DirectoryView { path }),
                Err(error) => r matches Err(e) && e@ == error,
            },
    {
        let mut config = Directory::new();
        match Self::resolve_arg_value("path", default_ids, config_file, subcommand) {
            Ok(path) => {
                config.path = path;
                Ok(config)
            },
            Err(e) => Err(e),
        }
    }

    /// Resolves the container section: its `name`.
    pub fn build_container_config(
        subcommand: &SubCommand,
        default_ids: &Vec<String>,
        config_file: &TomlFile,
    ) -> (r: Result<Container, ConfigError>)
        ensures
            match resolved_value("name"@, texts_of(default_ids@), config_file@, subcommand@) {
                Ok(name) => r matches Ok(c) && c@ == (ContainerView { name }),
                Err(error) => r matches Err(e) && e@ == error,
            },
    {
        let mut config = Container::new();
        match Self::resolve_arg_value("name", default_ids, config_file, subcommand) {
            Ok(name) => {
                config.name = name;
                Ok(config)
            },
            Err(e) => Err(e),
        }
    }

    /// Resolves the field `id` of the subcommand.
    ///
    /// Where `id` is not among `default_values`, the user supplied it and
    /// its value stands; the file is not asked. Where it is among them, the
    /// file's value from the table of the subcommand takes its place, read
    /// as text; a file without such a value leaves the default in place.
    pub fn resolve_arg_value(
        id: &str,
        default_values: &Vec<String>,
        config_file: &TomlFile,
        subcommand: &SubCommand,
    ) -> (r: Result<Option<String>, ConfigError>)
        ensures
            match resolved_value(id@, texts_of(default_values@), config_file@, subcommand@) {
                Ok(value) => r matches Ok(v) && text_of(v) == value,
                Err(error) => r matches Err(e) && e@ == error,
            },
    {
        let match_value = subcommand.try_get_one_arg(id);
        if !strings_hold(default_values, id) {
            return Ok(match_value);
        }
        let config_value = match config_file.try_get_value_from_table(subcommand.name(), id) {
            Ok(value) => value,
            Err(_) => {
                return Ok(match_value);
            },
        };
        let config_text = match config_value.to_text() {
            Some(text) => text,
            None => {
                return Err(ConfigError::TypeConversion { field_name: id.to_owned() });
            },
        };
        let differs: bool = match &match_value {
            Some(text) => !(*text == config_text),
            None => true,
        };
        if differs {
            Ok(Some(config_text))
        } else {
            Ok(match_value)
        }
    }
}

} // verus!
