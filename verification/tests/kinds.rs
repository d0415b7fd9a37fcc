use hierarchical_config::error::SubCommandError;
use hierarchical_config::kind::{parse_kind, Kind};

#[test]
fn parse_kind_knows_the_three_names() {
    assert_eq!(parse_kind("container"), Some(Kind::Container));
    assert_eq!(parse_kind("directory"), Some(Kind::Directory));
    assert_eq!(parse_kind("hadoop"), Some(Kind::Hadoop));
}

#[test]
fn parse_kind_matches_names_exactly() {
    assert_eq!(parse_kind("Container"), None);
    assert_eq!(parse_kind("container "), None);
    assert_eq!(parse_kind("contain"), None);
    assert_eq!(parse_kind(""), None);
    assert_eq!(parse_kind("bool"), None);
}

#[test]
fn from_str_reads_a_kind_from_its_name() {
    assert_eq!(Kind::from_str("container"), Ok(Kind::Container));
    assert_eq!(Kind::from_str("directory"), Ok(Kind::Directory));
    assert_eq!(Kind::from_str("hadoop"), Ok(Kind::Hadoop));
}

#[test]
fn from_str_refuses_an_unknown_name() {
    assert_eq!(Kind::from_str("bucket"), Err(SubCommandError::Unknown));
    assert_eq!(Kind::from_str("HADOOP"), Err(SubCommandError::Unknown));
}

#[test]
fn kind_names_are_those_of_the_command_line() {
    assert_eq!(Kind::Container.name(), "container");
    assert_eq!(Kind::Directory.name(), "directory");
    assert_eq!(Kind::Hadoop.name(), "hadoop");
    assert_eq!(Kind::Hadoop.to_string(), String::from("hadoop"));
}

#[test]
fn kind_is_found_again_under_its_name() {
    for kind in [Kind::Container, Kind::Directory, Kind::Hadoop] {
        assert_eq!(parse_kind(kind.name()), Some(kind));
        assert_eq!(Kind::from_str(&kind.to_string()), Ok(kind));
    }
}
