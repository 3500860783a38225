use creator_studio::json::{parse_json, parse_json_bytes, parse_json_items, set_member, Json};

#[test]
fn parses_documents() {
    let j = parse_json(r#"{"a": [1, "x", true, null], "b": {"c": "d"}}"#).unwrap();
    let a = j.get("a").unwrap().as_array().unwrap();
    assert_eq!(a.len(), 4);
    assert_eq!(a[0], Json::Number("1".to_string()));
    assert_eq!(a[1].as_str(), Some("x"));
    assert_eq!(a[2].as_bool(), Some(true));
    assert_eq!(a[3], Json::Null);
    assert_eq!(j.get("b").unwrap().get_str("c"), Some("d"));
    assert!(j.get("zz").is_none());
    assert!(j.is_object());
}

#[test]
fn parse_errors_carry_serde_messages() {
    let e = parse_json("{").unwrap_err();
    assert_eq!(e, serde_json::from_str::<serde_json::Value>("{").unwrap_err().to_string());
    assert!(parse_json_bytes(b"[1,").is_err());
    assert!(parse_json_items(b"{}").is_err());
    assert_eq!(parse_json_items(b"[1, 2]").unwrap().len(), 2);
}

#[test]
fn set_member_replaces_or_adds() {
    let mut j = parse_json(r#"{"a": 1, "b": 2}"#).unwrap();
    set_member(&mut j, "a", Json::Str("x".to_string()));
    set_member(&mut j, "c", Json::Bool(false));
    assert_eq!(j.get_str("a"), Some("x"));
    assert_eq!(j.get("b"), Some(&Json::Number("2".to_string())));
    assert_eq!(j.get("c").unwrap().as_bool(), Some(false));
    match &j {
        Json::Object(entries) => assert_eq!(entries.len(), 3),
        _ => panic!("not an object"),
    }
}

#[test]
fn copy_is_equal() {
    let j = parse_json(r#"[{"a": [1, 2]}, "s"]"#).unwrap();
    assert_eq!(j.copy(), j);
}
