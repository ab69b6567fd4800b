use webcodex::json::{
    boolean, copy_or, empty_array, empty_object, null, number, opt_text_json, signed, text,
    text_array, unsigned, ArrayBuilder, Json, ObjectBuilder,
};
use webcodex::json_text::parse_json;

fn to_value(v: &Json) -> serde_json::Value {
    match v {
        Json::Null => serde_json::Value::Null,
        Json::Bool(b) => serde_json::Value::from(*b),
        Json::UInt(n) => serde_json::Value::from(*n),
        Json::Int(n) => serde_json::Value::from(*n),
        Json::Decimal(s) => serde_json::from_str(s).unwrap(),
        Json::Text(s) => serde_json::Value::from(s.as_str()),
        Json::Array(items) => serde_json::Value::Array(items.iter().map(to_value).collect()),
        Json::Object(members) => serde_json::Value::Object(
            members
                .iter()
                .map(|m| (m.name.clone(), to_value(&m.value)))
                .collect(),
        ),
    }
}

#[test]
fn texts_are_parsed_as_serde_json_parses_them() {
    for s in [
        "null",
        "true",
        "[]",
        "{}",
        "0",
        "-3",
        "18446744073709551615",
        "-9223372036854775808",
        "1.5",
        "\"a\\u00e9\\n\"",
        "[1, [2, {\"x\": null}], \"y\"]",
        "{\"b\": 1, \"a\": {\"c\": [true, false]}}",
    ] {
        let expected: serde_json::Value = serde_json::from_str(s).unwrap();
        assert_eq!(to_value(&parse_json(s).unwrap()), expected, "{s}");
    }
}

#[test]
fn what_is_no_json_is_refused_in_the_words_of_serde_json() {
    for s in ["", "{", "[1,]", "nul", "{\"a\" 1}", "1 2"] {
        let expected = serde_json::from_str::<serde_json::Value>(s).unwrap_err().to_string();
        assert_eq!(parse_json(s).unwrap_err(), expected, "{s}");
    }
}

#[test]
fn members_are_read() {
    let v = parse_json(
        "{\"a\": {\"b\": {\"c\": 7}}, \"t\": true, \"s\": \"word\", \"n\": -2, \"l\": [1, 2]}",
    )
    .unwrap();
    assert_eq!(v.get3("a", "b", "c").and_then(|c| c.as_u64()), Some(7));
    assert_eq!(v.get2("a", "x"), None);
    assert_eq!(v.at2("a", "x"), Json::Null);
    assert_eq!(v.bool_at("t"), Some(true));
    assert!(v.is_text_at("s", "word") && !v.is_text_at("s", "other"));
    assert_eq!(v.i64_at("n"), Some(-2));
    assert_eq!(v.u64_at("n"), None);
    assert_eq!(v.count_at("n"), 0);
    assert_eq!(v.items_at("l").len(), 2);
    assert_eq!(v.items_at("t").len(), 0);
}

#[test]
fn put_is_found_and_leaves_the_rest() {
    let mut v = ObjectBuilder::new()
        .with("a", number(1))
        .with("b", text("x"))
        .build();
    v.set("a", boolean(true));
    v.set("c", null());
    assert_eq!(v.bool_at("a"), Some(true));
    assert_eq!(v.get("b").and_then(|b| b.as_str()), Some("x"));
    assert_eq!(v.get("c"), Some(&Json::Null));
    let mut not_an_object = signed(-4);
    not_an_object.set("a", null());
    assert_eq!(not_an_object, signed(-4));
}

#[test]
fn collected_objects_have_each_name_once() {
    let v = ObjectBuilder::new()
        .with("a", number(1))
        .with("b", number(2))
        .with("a", number(3))
        .collect();
    assert_eq!(
        v,
        ObjectBuilder::new().with("a", number(3)).with("b", number(2)).build()
    );
}

#[test]
fn values_are_built() {
    assert_eq!(
        to_value(&ArrayBuilder::new().with_text("x").with(unsigned(2)).build()),
        serde_json::from_str::<serde_json::Value>("[\"x\", 2]").unwrap()
    );
    assert_eq!(opt_text_json(&None), Json::Null);
    assert_eq!(opt_text_json(&Some("a".to_string())), text("a"));
    assert_eq!(
        text_array(&vec!["a".to_string(), "b".to_string()]),
        ArrayBuilder::new().with_text("a").with_text("b").build()
    );
    assert_eq!(copy_or(None, number(4)), number(4));
    assert_eq!(copy_or(Some(&text("a")), number(4)), text("a"));
    let mut list = empty_array();
    list.push(empty_object());
    assert_eq!(list.as_array().map(|l| l.len()), Some(1));
}
