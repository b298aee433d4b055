use llmconduit::json::Json;
use llmconduit::json::JsonMap;
use llmconduit::json::JsonNumber;
use llmconduit::json_string::decode_json_string_inner;
use llmconduit::json_string::encode_json_string;
use llmconduit::json_text::ObjectText;

#[test]
fn values_are_parsed_and_rendered() {
    let text = r#"{"a":[1,-2,0.5,null,true],"b":{"c":"d"}}"#;
    let value = Json::parse(text).expect("json");
    assert_eq!(value.render().as_deref(), Some(text));
    assert_eq!(Json::parse_bytes(text.as_bytes()).as_ref(), Ok(&value));
    assert_eq!(
        value.field("a").and_then(Json::as_array).map(|items| &items[2]),
        Some(&Json::Number(JsonNumber::Decimal("0.5".to_string())))
    );
    assert!(Json::parse("{").is_err());
    assert!(Json::parse_bytes(b"\"\xff\"").is_err());
}

#[test]
fn members_are_kept_in_order() {
    let mut map = JsonMap::new();
    map.put_text("b", "1");
    map.put_text("a", "2");
    map.put_text("b", "3");
    assert_eq!(
        map.copy().into_json().render().as_deref(),
        Some(r#"{"a":"2","b":"3"}"#)
    );
    assert_eq!(map.remove("a"), Some(Json::text("2")));
    assert_eq!(map.remove("a"), None);
    assert_eq!(map.get_text("b"), Some("3"));
}

#[test]
fn strings_are_escaped_and_back() {
    assert_eq!(encode_json_string("a\"\\\n\u{1}é"), "\"a\\\"\\\\\\n\\u0001é\"");
    assert_eq!(decode_json_string_inner("a\\\"\\\\\\n\\u0001é\\ud83d\\ude00"), "a\"\\\n\u{1}é😀");
}

#[test]
fn text_keeps_the_order_of_members() {
    let mut object = ObjectText::of_type("x");
    object.put_text("b", "1");
    object.put("a", Some("2".to_string()));
    assert_eq!(
        object.into_text().as_deref(),
        Some(r#"{"type":"x","b":"1","a":2}"#)
    );
    let mut object = ObjectText::new();
    object.put("a", None);
    object.put_text("b", "1");
    assert_eq!(object.into_text(), None);
}

#[test]
fn written_text_is_read_back() {
    let mut inner = JsonMap::new();
    inner.put_text("quote\"d", "tab\t \u{1}\u{2028}é\u{1F600}\\");
    inner.put("n", Json::integer(i64::MIN));
    inner.put("u", Json::unsigned(u64::MAX));
    inner.put("none", Json::Null);
    let value = Json::array(vec![inner.into_json(), Json::Bool(true), Json::array(vec![])]);
    let text = value.render().expect("text");
    assert_eq!(Json::parse(&text), Ok(value));
}

#[test]
fn nesting_is_read_up_to_its_depth() {
    let nested = |depth: usize| format!("{}{}", "[".repeat(depth), "]".repeat(depth));
    assert!(Json::parse(&nested(127)).is_ok());
    assert!(Json::parse(&nested(128)).is_err());
}

#[test]
fn last_member_of_a_name_counts() {
    assert_eq!(
        Json::parse(r#"{"b":1,"a":2,"b":3}"#).expect("json").render().as_deref(),
        Some(r#"{"a":2,"b":3}"#)
    );
}
