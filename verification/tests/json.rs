use socket2web::json::JsonValue;

#[test]
fn json_lookup_returns_first_member() {
    let doc = JsonValue::Object(vec![
        ("a".to_string(), JsonValue::Number(Some(1))),
        ("b".to_string(), JsonValue::String("x".to_string())),
        ("a".to_string(), JsonValue::Number(Some(2))),
    ]);
    assert!(matches!(doc.get(&"a".to_string()), Some(JsonValue::Number(Some(1)))));
    assert_eq!(doc.get(&"b".to_string()).unwrap().as_str().unwrap(), "x");
    assert!(doc.get(&"c".to_string()).is_none());
    assert!(JsonValue::Null.get(&"a".to_string()).is_none());
}

#[test]
fn json_scalar_accessors() {
    assert_eq!(JsonValue::Number(Some(7)).as_u64(), Some(7));
    assert_eq!(JsonValue::Number(None).as_u64(), None);
    assert_eq!(JsonValue::String("7".to_string()).as_u64(), None);
    assert!(JsonValue::Bool(true).as_str().is_none());
    assert!(JsonValue::Array(vec![]).as_object().is_none());
}
