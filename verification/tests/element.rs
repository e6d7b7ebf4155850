use puprs::element::{
    attribute_names, attribute_script_text, check_connected, property_script_text, select_script_text,
    selected_values, string_value, SELECT_CLOSE, SELECT_OPEN,
};
use puprs::error::Error;
use puprs::json::{JsonArray, JsonNumber, JsonValue};

fn s(x: &str) -> JsonValue {
    JsonValue::String(x.to_string())
}

#[test]
fn attribute_and_property_scripts() {
    assert_eq!(attribute_script_text("href"), "function() { return this.getAttribute('href') }");
    assert_eq!(property_script_text("innerText"), "function() { return this['innerText'] }");
}

#[test]
fn select_script_lists_values_as_json() {
    let v = vec!["a".to_string(), "b\"c".to_string()];
    assert_eq!(select_script_text(&v), format!("{}[\"a\",\"b\\\"c\"]{}", SELECT_OPEN, SELECT_CLOSE));
    assert_eq!(select_script_text(&Vec::new()), format!("{}[]{}", SELECT_OPEN, SELECT_CLOSE));
    assert!(select_script_text(&v).contains("const values = [\"a\",\"b\\\"c\"];"));
}

#[test]
fn selected_values_keep_strings_in_order() {
    let arr = JsonValue::Array(JsonArray {
        items: vec![s("x"), JsonValue::Null, s("y")],
        text: "[\"x\",null,\"y\"]".to_string(),
    });
    assert_eq!(selected_values(Some(&arr)), vec!["x".to_string(), "y".to_string()]);
    assert!(selected_values(Some(&s("x"))).is_empty());
    assert!(selected_values(None).is_empty());
}

#[test]
fn attribute_names_are_every_other_item() {
    let flat: Vec<String> = ["id", "a", "class", "b c", "hidden"].iter().map(|x| x.to_string()).collect();
    assert_eq!(attribute_names(&flat), vec!["id".to_string(), "class".to_string(), "hidden".to_string()]);
    assert!(attribute_names(&Vec::new()).is_empty());
}

#[test]
fn string_values_and_connection_check() {
    assert_eq!(string_value(Some(&s("v"))), Some("v".to_string()));
    let n = JsonValue::Number(JsonNumber { text: "1".to_string(), int: Some(1), truncated: 1 });
    assert_eq!(string_value(Some(&n)), None);
    assert!(check_connected(Some(&JsonValue::Bool(false))).is_ok());
    match check_connected(Some(&s("Node is detached from document"))) {
        Err(Error::Other(m)) => assert_eq!(m, "Node is detached from document"),
        other => panic!("unexpected: {:?}", other),
    }
}
