use hierarchical_config::error::ConfigFileError;
use hierarchical_config::toml_file::TomlFile;
use hierarchical_config::value::Value;

fn sample_entries() -> Vec<(String, Value)> {
    vec![
        (String::from("debug"), Value::Boolean(true)),
        (
            String::from("container"),
            Value::Table(vec![(String::from("name"), Value::String(String::from("prod")))]),
        ),
        (
            String::from("directory"),
            Value::Table(vec![(String::from("path"), Value::String(String::from("/srv/data")))]),
        ),
        (String::from("title"), Value::String(String::from("settings"))),
    ]
}

fn sample_file() -> TomlFile {
    TomlFile::new("config.toml", Some(sample_entries())).unwrap()
}

fn field_not_found(table: Option<&str>, field: &str) -> ConfigFileError {
    ConfigFileError::FieldNotFound {
        table_name: table.map(String::from),
        field_name: String::from(field),
    }
}

#[test]
fn new_fails_for_a_file_that_was_not_loaded() {
    assert_eq!(
        TomlFile::new("missing.toml", None),
        Err(ConfigFileError::NotFound { path: String::from("missing.toml") })
    );
}

#[test]
fn new_keeps_the_entries_that_were_loaded() {
    let file = sample_file();
    assert_eq!(file.try_get_value("title"), Ok(&Value::String(String::from("settings"))));
    let empty = TomlFile::new("empty.toml", Some(Vec::new())).unwrap();
    assert_eq!(empty.try_get_value("title"), Err(field_not_found(None, "title")));
}

#[test]
fn try_get_value_from_table_finds_a_field() {
    let file = sample_file();
    assert_eq!(
        file.try_get_value_from_table("container", "name"),
        Ok(&Value::String(String::from("prod")))
    );
    assert_eq!(
        file.try_get_value_from_table("directory", "path"),
        Ok(&Value::String(String::from("/srv/data")))
    );
}

#[test]
fn try_get_value_from_table_names_table_and_field_of_a_missing_field() {
    let file = sample_file();
    assert_eq!(
        file.try_get_value_from_table("container", "path"),
        Err(field_not_found(Some("container"), "path"))
    );
}

#[test]
fn try_get_value_from_table_names_table_and_field_of_a_missing_table() {
    let file = sample_file();
    assert_eq!(
        file.try_get_value_from_table("hadoop", "path"),
        Err(field_not_found(Some("hadoop"), "path"))
    );
}

#[test]
fn try_get_value_from_table_finds_nothing_in_a_scalar() {
    let file = sample_file();
    assert_eq!(
        file.try_get_value_from_table("title", "name"),
        Err(field_not_found(Some("title"), "name"))
    );
}

#[test]
fn try_get_value_from_table_is_case_sensitive() {
    let file = sample_file();
    assert_eq!(
        file.try_get_value_from_table("Container", "name"),
        Err(field_not_found(Some("Container"), "name"))
    );
    assert_eq!(
        file.try_get_value_from_table("container", "Name"),
        Err(field_not_found(Some("container"), "Name"))
    );
}

#[test]
fn try_get_value_finds_a_top_level_field() {
    let file = sample_file();
    assert_eq!(file.try_get_value("debug"), Ok(&Value::Boolean(true)));
}

#[test]
fn try_get_value_names_no_table_for_a_missing_field() {
    let file = sample_file();
    assert_eq!(file.try_get_value("verbose"), Err(field_not_found(None, "verbose")));
}

#[test]
fn try_get_value_does_not_look_into_tables() {
    let file = sample_file();
    assert_eq!(file.try_get_value("name"), Err(field_not_found(None, "name")));
    assert_eq!(file.try_get_value("path"), Err(field_not_found(None, "path")));
}

#[test]
fn a_missing_table_and_a_missing_top_level_field_fail_differently() {
    let file = sample_file();
    let in_table = file.try_get_value_from_table("hadoop", "debug").unwrap_err();
    let top_level = file.try_get_value("hadoop").unwrap_err();
    assert_ne!(in_table, top_level);
    assert_eq!(in_table, field_not_found(Some("hadoop"), "debug"));
    assert_eq!(top_level, field_not_found(None, "hadoop"));
}

#[test]
fn a_copy_of_a_file_answers_as_the_file_does() {
    let file = sample_file();
    let copy = file.clone();
    assert_eq!(copy, file);
    assert_eq!(
        copy.try_get_value_from_table("container", "name"),
        Ok(&Value::String(String::from("prod")))
    );
    assert_eq!(copy.try_get_value("verbose"), Err(field_not_found(None, "verbose")));
}

#[test]
fn a_copy_of_an_error_says_the_same() {
    let error = field_not_found(Some("container"), "name");
    assert_eq!(error.clone(), error);
    let error = ConfigFileError::NotFound { path: String::from("config.toml") };
    assert_eq!(error.clone(), error);
    assert_eq!(ConfigFileError::Unknown.clone(), ConfigFileError::Unknown);
}
