use cfkv::JsonValue;

fn s(text: &str) -> JsonValue {
    JsonValue::Str(text.to_string())
}

fn obj(entries: Vec<(&str, JsonValue)>) -> JsonValue {
    JsonValue::Obj(entries.into_iter().map(|(k, v)| (k.to_string(), v)).collect())
}

#[test]
fn scalars_serialize() {
    assert_eq!(JsonValue::Null.to_text(), "null");
    assert_eq!(JsonValue::Bool(true).to_text(), "true");
    assert_eq!(JsonValue::Bool(false).to_text(), "false");
    assert_eq!(JsonValue::Num(0).to_text(), "0");
    assert_eq!(JsonValue::Num(7).to_text(), "7");
    assert_eq!(JsonValue::Num(1234567890).to_text(), "1234567890");
    assert_eq!(JsonValue::Num(u64::MAX).to_text(), "18446744073709551615");
}

#[test]
fn strings_escape() {
    assert_eq!(s("plain").to_text(), "\"plain\"");
    assert_eq!(s("").to_text(), "\"\"");
    assert_eq!(s("a\"b").to_text(), "\"a\\\"b\"");
    assert_eq!(s("a\\b").to_text(), "\"a\\\\b\"");
    assert_eq!(s("a\nb").to_text(), "\"a\\u000ab\"");
    assert_eq!(s("tab\there").to_text(), "\"tab\\u0009here\"");
    assert_eq!(s("caf\u{e9}").to_text(), "\"caf\u{e9}\"");
}

#[test]
fn arrays_and_objects_serialize_in_order() {
    let a = JsonValue::Arr(vec![JsonValue::Num(1), s("two"), JsonValue::Null]);
    assert_eq!(a.to_text(), "[1,\"two\",null]");
    assert_eq!(JsonValue::Arr(vec![]).to_text(), "[]");
    let o = obj(vec![("b", JsonValue::Num(2)), ("a", JsonValue::Num(1))]);
    assert_eq!(o.to_text(), "{\"b\":2,\"a\":1}");
    assert_eq!(obj(vec![]).to_text(), "{}");
    let nested = obj(vec![("x", JsonValue::Arr(vec![obj(vec![("y", JsonValue::Bool(false))])]))]);
    assert_eq!(nested.to_text(), "{\"x\":[{\"y\":false}]}");
}

#[test]
fn get_finds_first_match() {
    let o = obj(vec![("k", JsonValue::Num(1)), ("k", JsonValue::Num(2)), ("m", JsonValue::Null)]);
    assert_eq!(o.get("k"), Some(&JsonValue::Num(1)));
    assert_eq!(o.get("m"), Some(&JsonValue::Null));
    assert_eq!(o.get("absent"), None);
}

#[test]
fn get_on_non_object_is_none() {
    assert_eq!(JsonValue::Null.get("k"), None);
    assert_eq!(JsonValue::Arr(vec![s("k")]).get("k"), None);
    assert_eq!(s("k").get("k"), None);
}

#[test]
fn deep_clone_is_equal() {
    let v = obj(vec![
        ("a", JsonValue::Arr(vec![JsonValue::Num(1), s("x")])),
        ("b", obj(vec![("c", JsonValue::Bool(true))])),
    ]);
    let c = v.deep_clone();
    assert_eq!(c, v);
    assert_eq!(c.to_text(), v.to_text());
}
