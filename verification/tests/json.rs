use control_plane::json::{parse_json_bytes, parse_json_text, JsonValue};

#[test]
fn reads_an_object_and_finds_its_members() {
    let doc = parse_json_text("{\"model\":\"m1\",\"stream\":true,\"n\":[1,\"two\"]}").unwrap();
    assert_eq!(doc.get("model").unwrap().as_str().unwrap(), "m1");
    assert_eq!(doc.get("stream").unwrap().as_bool(), Some(true));
    let items = doc.get("n").unwrap().as_array().unwrap();
    assert_eq!(items.len(), 2);
    assert!(matches!(items[0], JsonValue::Number(_)));
    assert_eq!(items[1].as_str().unwrap(), "two");
    assert!(doc.get("missing").is_none());
    assert!(doc.get("model").unwrap().get("x").is_none());
    assert!(doc.as_object().is_some());
    assert!(doc.as_array().is_none());
}

#[test]
fn reads_bytes_as_it_reads_text() {
    let bytes = "{\"a\":null}".as_bytes().to_vec();
    let doc = parse_json_bytes(&bytes).unwrap();
    assert!(matches!(doc.get("a"), Some(JsonValue::Null)));
    assert!(doc.get("a").unwrap().as_str().is_none());
    assert!(doc.get("a").unwrap().as_bool().is_none());
}

#[test]
fn reports_text_that_is_not_json() {
    assert!(parse_json_text("{\"model\":").is_err());
    assert!(parse_json_text("").is_err());
    let bytes = vec![0xffu8, 0xfe];
    assert!(parse_json_bytes(&bytes).is_err());
}

#[test]
fn object_entries_come_in_key_order() {
    let doc = parse_json_text("{\"b\":1,\"a\":2}").unwrap();
    let entries = doc.as_object().unwrap();
    assert_eq!(entries.len(), 2);
    assert_eq!(entries[0].0, "a");
    assert_eq!(entries[1].0, "b");
}
