use puprs::json::{as_u16, get, to_value_text, JsonArray, JsonNumber, JsonObject, JsonValue};

fn s(x: &str) -> JsonValue {
    JsonValue::String(x.to_string())
}

fn obj(members: Vec<(&str, JsonValue)>) -> JsonValue {
    JsonValue::Object(JsonObject {
        members: members.into_iter().map(|(k, v)| (k.to_string(), v)).collect(),
        text: String::new(),
    })
}

#[test]
fn json_get_takes_the_first_member_with_the_name() {
    let v = obj(vec![("a", s("first")), ("b", s("x")), ("a", s("second"))]);
    match get(&v, "a") {
        Some(JsonValue::String(t)) => assert_eq!(t, "first"),
        other => panic!("unexpected {:?}", other),
    }
    assert!(get(&v, "c").is_none());
    assert!(get(&s("a"), "a").is_none());
}

#[test]
fn json_value_text_of_scalars() {
    assert_eq!(to_value_text(&JsonValue::Null), "null");
    assert_eq!(to_value_text(&JsonValue::Bool(true)), "true");
    assert_eq!(to_value_text(&JsonValue::Bool(false)), "false");
    let n = JsonValue::Number(JsonNumber { text: "42".to_string(), int: Some(42), truncated: 42 });
    assert_eq!(to_value_text(&n), "42");
    assert_eq!(to_value_text(&s("hi")), "hi");
    let a = JsonValue::Array(JsonArray { items: vec![], text: "[]".to_string() });
    assert_eq!(to_value_text(&a), "[]");
}

#[test]
fn json_number_as_u16_saturates() {
    let big = JsonValue::Number(JsonNumber { text: "70000".to_string(), int: Some(70000), truncated: 70000 });
    assert_eq!(as_u16(Some(&big)), Some(65535));
    let neg = JsonValue::Number(JsonNumber { text: "-3".to_string(), int: Some(-3), truncated: -3 });
    assert_eq!(as_u16(Some(&neg)), Some(0));
    let frac = JsonValue::Number(JsonNumber { text: "200.7".to_string(), int: None, truncated: 200 });
    assert_eq!(as_u16(Some(&frac)), Some(200));
    assert_eq!(as_u16(Some(&s("200"))), None);
}
