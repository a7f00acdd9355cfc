use cute_lights::json::{bool_from_scalar, boolean_int, is_valid, JsonError, JsonValue};

#[test]
fn boolean_int_accepts_booleans() {
    assert_eq!(boolean_int(&JsonValue::Bool(true)), Ok(true));
    assert_eq!(boolean_int(&JsonValue::Bool(false)), Ok(false));
}

#[test]
fn boolean_int_accepts_integers() {
    assert_eq!(boolean_int(&JsonValue::Int(0)), Ok(false));
    assert_eq!(boolean_int(&JsonValue::Int(1)), Ok(true));
    assert_eq!(boolean_int(&JsonValue::Int(-7)), Ok(true));
}

#[test]
fn boolean_int_accepts_null_as_false() {
    assert_eq!(boolean_int(&JsonValue::Null), Ok(false));
}

#[test]
fn boolean_int_rejects_other_shapes() {
    assert_eq!(boolean_int(&JsonValue::Str(String::from("yes"))), Err(JsonError {}));
    assert_eq!(boolean_int(&JsonValue::Array(vec![JsonValue::Int(1)])), Err(JsonError {}));
    assert_eq!(boolean_int(&JsonValue::Object(vec![])), Err(JsonError {}));
    assert_eq!(boolean_int(&JsonValue::BigNum), Err(JsonError {}));
}

#[test]
fn bool_from_scalar_cases() {
    assert_eq!(bool_from_scalar(Some(true), false, None, false), Ok(true));
    assert_eq!(bool_from_scalar(None, true, Some(0), false), Ok(false));
    assert_eq!(bool_from_scalar(None, true, Some(3), false), Ok(true));
    assert_eq!(bool_from_scalar(None, true, None, false), Err(JsonError {}));
    assert_eq!(bool_from_scalar(None, false, None, true), Ok(false));
    assert_eq!(bool_from_scalar(None, false, None, false), Err(JsonError {}));
}

#[test]
fn strict_bool_helper() {
    assert_eq!(cute_lights::json::bool(&JsonValue::Bool(true)), Ok(true));
    assert_eq!(cute_lights::json::bool(&JsonValue::Int(1)), Err(JsonError {}));
}

#[test]
fn object_lookup_finds_keys() {
    let obj = JsonValue::Object(vec![
        (String::from("a"), JsonValue::Int(1)),
        (String::from("b"), JsonValue::Bool(true)),
    ]);
    assert_eq!(obj.get("a").and_then(|v| v.as_i64()), Some(1));
    assert_eq!(obj.get("b").and_then(|v| v.as_bool()), Some(true));
    assert!(obj.get("c").is_none());
    assert!(JsonValue::Int(3).get("a").is_none());
}

#[test]
fn scalar_accessors() {
    assert_eq!(JsonValue::Str(String::from("x")).as_str(), Some("x"));
    assert_eq!(JsonValue::Int(4).as_str(), None);
    assert!(JsonValue::Null.is_null());
    assert!(!JsonValue::Int(0).is_null());
    assert!(JsonValue::Int(0).is_number());
    assert!(JsonValue::BigNum.is_number());
    assert!(!JsonValue::Bool(true).is_number());
}

#[test]
fn is_valid_recognises_json() {
    assert!(is_valid(&String::from("{\"a\":[1,2,3]}")));
    assert!(is_valid(&String::from("null")));
    assert!(!is_valid(&String::from("{\"a\":")));
    assert!(!is_valid(&String::from("")));
}

#[test]
fn json_error_message() {
    assert_eq!(JsonError {}.message(), "Error parsing JSON");
}
