use hierarchical_config::value::{find, integer_text, parse_bool, Value};

fn sample_table() -> Value {
    Value::Table(vec![
        (String::from("name"), Value::String(String::from("prod"))),
        (String::from("retries"), Value::Integer(3)),
        (String::from("name"), Value::String(String::from("shadowed"))),
    ])
}

#[test]
fn integer_text_writes_decimal() {
    assert_eq!(integer_text(0), "0");
    assert_eq!(integer_text(7), "7");
    assert_eq!(integer_text(10), "10");
    assert_eq!(integer_text(42), "42");
    assert_eq!(integer_text(1000), "1000");
    assert_eq!(integer_text(9_007_199_254_740_993), "9007199254740993");
}

#[test]
fn integer_text_writes_a_minus_sign() {
    assert_eq!(integer_text(-1), "-1");
    assert_eq!(integer_text(-10), "-10");
    assert_eq!(integer_text(-305), "-305");
}

#[test]
fn integer_text_covers_the_whole_range() {
    assert_eq!(integer_text(i64::MAX), "9223372036854775807");
    assert_eq!(integer_text(i64::MIN), "-9223372036854775808");
    assert_eq!(integer_text(i64::MIN + 1), "-9223372036854775807");
}

#[test]
fn integer_text_agrees_with_the_standard_library() {
    for i in [-1234567_i64, -99, -9, 0, 5, 19, 100, 101, 65535, 1 << 40] {
        assert_eq!(integer_text(i), i.to_string());
    }
    for i in -2000_i64..=2000 {
        assert_eq!(integer_text(i), i.to_string());
    }
}

#[test]
fn parse_bool_reads_true_and_false_only() {
    assert_eq!(parse_bool("true"), Some(true));
    assert_eq!(parse_bool("false"), Some(false));
    assert_eq!(parse_bool("True"), None);
    assert_eq!(parse_bool("yes"), None);
    assert_eq!(parse_bool("1"), None);
    assert_eq!(parse_bool(""), None);
    assert_eq!(parse_bool(" true"), None);
}

#[test]
fn to_text_gives_each_scalar_its_text() {
    assert_eq!(Value::String(String::from("prod")).to_text(), Some(String::from("prod")));
    assert_eq!(Value::String(String::new()).to_text(), Some(String::new()));
    assert_eq!(Value::Boolean(true).to_text(), Some(String::from("true")));
    assert_eq!(Value::Boolean(false).to_text(), Some(String::from("false")));
    assert_eq!(Value::Integer(-12).to_text(), Some(String::from("-12")));
}

#[test]
fn to_text_gives_a_table_none() {
    assert_eq!(sample_table().to_text(), None);
    assert_eq!(Value::Table(Vec::new()).to_text(), None);
}

#[test]
fn to_bool_reads_booleans_and_boolean_strings() {
    assert_eq!(Value::Boolean(true).to_bool(), Some(true));
    assert_eq!(Value::Boolean(false).to_bool(), Some(false));
    assert_eq!(Value::String(String::from("true")).to_bool(), Some(true));
    assert_eq!(Value::String(String::from("false")).to_bool(), Some(false));
}

#[test]
fn to_bool_reads_nothing_else() {
    assert_eq!(Value::String(String::from("on")).to_bool(), None);
    assert_eq!(Value::Integer(1).to_bool(), None);
    assert_eq!(Value::Integer(0).to_bool(), None);
    assert_eq!(sample_table().to_bool(), None);
}

#[test]
fn get_finds_a_field_of_a_table() {
    let table = sample_table();
    assert_eq!(table.get("retries"), Some(&Value::Integer(3)));
    assert_eq!(table.get("missing"), None);
    assert_eq!(table.get("Name"), None);
}

#[test]
fn get_takes_the_first_of_two_entries() {
    let table = sample_table();
    assert_eq!(table.get("name"), Some(&Value::String(String::from("prod"))));
}

#[test]
fn get_finds_nothing_in_a_scalar() {
    assert_eq!(Value::String(String::from("name")).get("name"), None);
    assert_eq!(Value::Boolean(true).get("name"), None);
    assert_eq!(Value::Integer(4).get("name"), None);
}

#[test]
fn find_walks_the_entries_in_order() {
    let entries = vec![
        (String::from("a"), Value::Integer(1)),
        (String::from("b"), Value::Integer(2)),
        (String::from("a"), Value::Integer(3)),
    ];
    assert_eq!(find(&entries, "a"), Some(&Value::Integer(1)));
    assert_eq!(find(&entries, "b"), Some(&Value::Integer(2)));
    assert_eq!(find(&entries, "c"), None);
    assert_eq!(find(&Vec::new(), "a"), None);
}

#[test]
fn a_copy_of_a_value_holds_the_same() {
    let nested = Value::Table(vec![
        (String::from("inner"), sample_table()),
        (String::from("flag"), Value::Boolean(false)),
    ]);
    assert_eq!(nested.clone(), nested);
    assert_eq!(Value::Integer(-3).clone(), Value::Integer(-3));
    assert_eq!(nested.clone().get("inner"), Some(&sample_table()));
}
