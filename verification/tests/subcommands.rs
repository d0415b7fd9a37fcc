use hierarchical_config::kind::Kind;
use hierarchical_config::arg_matches::{ArgMatches, ValueSource};
use hierarchical_config::subcommand::SubCommand;

fn container_line() -> ArgMatches {
    let mut matches = ArgMatches::new();
    matches.insert("config_path", ValueSource::DefaultValue, Some("config.toml"));
    matches.insert("name", ValueSource::DefaultValue, Some("kdev"));
    matches.insert("region", ValueSource::EnvVariable, Some("eu"));
    matches.insert("tier", ValueSource::CommandLine, Some("hot"));
    matches.insert("label", ValueSource::DefaultValue, None);
    matches
}

#[test]
fn a_new_command_line_is_empty() {
    let matches = ArgMatches::new();
    assert_eq!(matches.len(), 0);
    assert_eq!(matches.ids(), Vec::<String>::new());
    assert_eq!(matches.value_source("name"), None);
    assert_eq!(matches.get_one("name"), None);
    assert!(!matches.contains_id("name"));
}

#[test]
fn insert_appends_a_new_argument() {
    let matches = container_line();
    assert_eq!(matches.len(), 5);
    assert_eq!(matches.ids(), vec!["config_path", "name", "region", "tier", "label"]);
}

#[test]
fn insert_replaces_an_argument_in_its_place() {
    let mut matches = container_line();
    matches.insert("name", ValueSource::CommandLine, Some("custom"));
    assert_eq!(matches.len(), 5);
    assert_eq!(matches.ids(), vec!["config_path", "name", "region", "tier", "label"]);
    assert_eq!(matches.value_source("name"), Some(ValueSource::CommandLine));
    assert_eq!(matches.get_one("name"), Some(&String::from("custom")));
    assert_eq!(matches.get_one("region"), Some(&String::from("eu")));
}

#[test]
fn insert_keeps_ids_distinct() {
    let mut matches = ArgMatches::new();
    for _ in 0..3 {
        matches.insert("name", ValueSource::DefaultValue, Some("kdev"));
        matches.insert("path", ValueSource::EnvVariable, Some("."));
    }
    assert_eq!(matches.ids(), vec!["name", "path"]);
}

#[test]
fn value_source_tells_where_a_value_came_from() {
    let matches = container_line();
    assert_eq!(matches.value_source("name"), Some(ValueSource::DefaultValue));
    assert_eq!(matches.value_source("region"), Some(ValueSource::EnvVariable));
    assert_eq!(matches.value_source("tier"), Some(ValueSource::CommandLine));
    assert_eq!(matches.value_source("absent"), None);
}

#[test]
fn get_one_gives_the_value_of_an_argument() {
    let matches = container_line();
    assert_eq!(matches.get_one("name"), Some(&String::from("kdev")));
    assert_eq!(matches.get_one("label"), None);
    assert_eq!(matches.get_one("absent"), None);
    assert!(matches.contains_id("label"));
    assert!(!matches.contains_id("absent"));
}

#[test]
fn a_copy_of_a_command_line_holds_the_same_arguments() {
    let matches = container_line();
    let copy = matches.clone();
    assert_eq!(copy, matches);
    assert_eq!(copy.ids(), matches.ids());
    assert_eq!(copy.get_one("tier"), Some(&String::from("hot")));
}

#[test]
fn a_subcommand_keeps_its_kind_and_arguments() {
    let subcommand = SubCommand::new(Kind::Directory, container_line());
    assert_eq!(subcommand.kind(), Kind::Directory);
    assert_eq!(subcommand.name(), "directory");
    assert_eq!(subcommand.matches(), &container_line());
    assert_eq!(SubCommand::new(Kind::Container, ArgMatches::new()).name(), "container");
    assert_eq!(SubCommand::new(Kind::Hadoop, ArgMatches::new()).name(), "hadoop");
}

#[test]
fn default_value_matches_are_the_arguments_that_nobody_supplied() {
    let subcommand = SubCommand::new(Kind::Container, container_line());
    assert_eq!(
        subcommand.try_get_default_value_matches(&[]),
        vec!["config_path", "name", "label"]
    );
}

#[test]
fn default_value_matches_leave_out_the_excluded_ids() {
    let subcommand = SubCommand::new(Kind::Container, container_line());
    assert_eq!(subcommand.try_get_default_value_matches(&["config_path"]), vec!["name", "label"]);
    assert_eq!(
        subcommand.try_get_default_value_matches(&["label", "tier", "config_path", "other"]),
        vec!["name"]
    );
}

#[test]
fn default_value_matches_never_hold_a_supplied_argument() {
    let subcommand = SubCommand::new(Kind::Container, container_line());
    let defaults = subcommand.try_get_default_value_matches(&[]);
    assert!(!defaults.contains(&String::from("region")));
    assert!(!defaults.contains(&String::from("tier")));
}

#[test]
fn default_value_matches_of_an_empty_command_line_are_empty() {
    let subcommand = SubCommand::new(Kind::Hadoop, ArgMatches::new());
    assert_eq!(subcommand.try_get_default_value_matches(&["config_path"]), Vec::<String>::new());
}

#[test]
fn try_get_one_arg_gives_the_value_of_the_command_line() {
    let subcommand = SubCommand::new(Kind::Container, container_line());
    assert_eq!(subcommand.try_get_one_arg("name"), Some(String::from("kdev")));
    assert_eq!(subcommand.try_get_one_arg("tier"), Some(String::from("hot")));
    assert_eq!(subcommand.try_get_one_arg("config_path"), Some(String::from("config.toml")));
}

#[test]
fn try_get_one_arg_gives_nothing_for_an_argument_that_does_not_apply() {
    let subcommand = SubCommand::new(Kind::Container, container_line());
    assert_eq!(subcommand.try_get_one_arg("path"), None);
    assert_eq!(subcommand.try_get_one_arg("label"), None);
}

#[test]
fn a_source_is_explicit_unless_it_is_the_default() {
    assert!(!ValueSource::DefaultValue.is_explicit());
    assert!(ValueSource::EnvVariable.is_explicit());
    assert!(ValueSource::CommandLine.is_explicit());
}
