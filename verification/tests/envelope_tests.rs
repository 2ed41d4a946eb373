use cfkv::envelope::check_success;
use cfkv::envelope::interpret_created_namespace;
use cfkv::envelope::interpret_keys_page;
use cfkv::envelope::interpret_metadata;
use cfkv::envelope::interpret_namespace_list;
use cfkv::envelope::interpret_unit;
use cfkv::envelope::interpret_value_response;
use cfkv::JsonValue;
use cfkv::KvError;
use cfkv::Namespace;

fn s(text: &str) -> JsonValue {
    JsonValue::Str(text.to_string())
}

fn obj(entries: Vec<(&str, JsonValue)>) -> JsonValue {
    JsonValue::Obj(entries.into_iter().map(|(k, v)| (k.to_string(), v)).collect())
}

fn protocol(msg: &str) -> KvError {
    KvError::Protocol(msg.to_string())
}

#[test]
fn check_success_reads_the_flag() {
    assert_eq!(check_success(&obj(vec![("success", JsonValue::Bool(true))])), Ok(true));
    assert_eq!(check_success(&obj(vec![("success", JsonValue::Bool(false))])), Ok(false));
}

#[test]
fn missing_success_is_a_protocol_error() {
    let missing = protocol("The returned JSON does not contain the 'success' field.");
    let v = obj(vec![("result", JsonValue::Null)]);
    assert_eq!(check_success(&v), Err(missing.clone()));
    assert_eq!(interpret_unit(&v), Err(missing.clone()));
    assert_eq!(interpret_namespace_list(&v), Err(missing.clone()));
    assert_eq!(interpret_created_namespace(&v), Err(missing.clone()));
    assert_eq!(interpret_keys_page(&v), Err(missing.clone()));
    assert_eq!(interpret_metadata(&v), Err(missing));
}

#[test]
fn non_boolean_success_is_a_protocol_error() {
    let bad = protocol("The returned 'success' field is not a boolean value.");
    for flag in [s("true"), JsonValue::Num(1), JsonValue::Null] {
        let v = obj(vec![("success", flag), ("result", JsonValue::Arr(vec![]))]);
        assert_eq!(check_success(&v), Err(bad.clone()));
        assert_eq!(interpret_unit(&v), Err(bad.clone()));
        assert_eq!(interpret_namespace_list(&v), Err(bad.clone()));
        assert_eq!(interpret_created_namespace(&v), Err(bad.clone()));
        assert_eq!(interpret_keys_page(&v), Err(bad.clone()));
        assert_eq!(interpret_metadata(&v), Err(bad.clone()));
    }
}

#[test]
fn failed_envelope_is_a_rejection_carrying_the_envelope() {
    let v = obj(vec![
        ("success", JsonValue::Bool(false)),
        ("errors", JsonValue::Arr(vec![s("boom")])),
    ]);
    let detail = "{\"success\":false,\"errors\":[\"boom\"]}".to_string();
    assert_eq!(v.to_text(), detail);
    let rejected = KvError::RemoteRejection(detail);
    assert_eq!(interpret_unit(&v), Err(rejected.clone()));
    assert_eq!(interpret_namespace_list(&v), Err(rejected.clone()));
    assert_eq!(interpret_created_namespace(&v), Err(rejected.clone()));
    assert_eq!(interpret_keys_page(&v), Err(rejected.clone()));
    assert_eq!(interpret_metadata(&v), Err(rejected));
}

#[test]
fn unit_success() {
    let v = obj(vec![("success", JsonValue::Bool(true)), ("result", JsonValue::Null)]);
    assert_eq!(interpret_unit(&v), Ok(()));
}

#[test]
fn created_namespace_fields_are_exact() {
    let v = obj(vec![
        ("success", JsonValue::Bool(true)),
        ("result", obj(vec![("id", s("abc123")), ("title", s("foo"))])),
    ]);
    assert_eq!(
        interpret_created_namespace(&v),
        Ok(Namespace { id: "abc123".to_string(), title: "foo".to_string() })
    );
}

#[test]
fn created_namespace_field_errors() {
    let no_result = obj(vec![("success", JsonValue::Bool(true))]);
    assert_eq!(
        interpret_created_namespace(&no_result),
        Err(protocol("The returned JSON does not contain the 'result' field."))
    );
    let no_id = obj(vec![
        ("success", JsonValue::Bool(true)),
        ("result", obj(vec![("title", s("foo"))])),
    ]);
    assert_eq!(
        interpret_created_namespace(&no_id),
        Err(protocol("The 'id' field cannot be found in the 'result' field."))
    );
    let bad_id = obj(vec![
        ("success", JsonValue::Bool(true)),
        ("result", obj(vec![("id", JsonValue::Num(5)), ("title", s("foo"))])),
    ]);
    assert_eq!(
        interpret_created_namespace(&bad_id),
        Err(protocol("The 'id' field cannot be converted to a string."))
    );
    let no_title = obj(vec![
        ("success", JsonValue::Bool(true)),
        ("result", obj(vec![("id", s("abc"))])),
    ]);
    assert_eq!(
        interpret_created_namespace(&no_title),
        Err(protocol("The 'title' field cannot be found in the 'result' field."))
    );
    let bad_title = obj(vec![
        ("success", JsonValue::Bool(true)),
        ("result", obj(vec![("id", s("abc")), ("title", JsonValue::Null)])),
    ]);
    assert_eq!(
        interpret_created_namespace(&bad_title),
        Err(protocol("The 'title' field cannot be converted to a string."))
    );
}

#[test]
fn namespace_list_keeps_server_order() {
    let v = obj(vec![
        ("success", JsonValue::Bool(true)),
        (
            "result",
            JsonValue::Arr(vec![
                obj(vec![("id", s("n2")), ("title", s("beta"))]),
                obj(vec![("id", s("n1")), ("title", s("alpha"))]),
            ]),
        ),
    ]);
    assert_eq!(
        interpret_namespace_list(&v),
        Ok(vec![
            Namespace { id: "n2".to_string(), title: "beta".to_string() },
            Namespace { id: "n1".to_string(), title: "alpha".to_string() },
        ])
    );
}

#[test]
fn namespace_list_rejects_bad_result() {
    let no_result = obj(vec![("success", JsonValue::Bool(true))]);
    assert_eq!(
        interpret_namespace_list(&no_result),
        Err(protocol("The returned JSON does not contain the 'result' field."))
    );
    let not_array = obj(vec![("success", JsonValue::Bool(true)), ("result", s("nope"))]);
    assert_eq!(
        interpret_namespace_list(&not_array),
        Err(protocol("The 'results' field cannot be converted to an array."))
    );
    let bad_element = obj(vec![
        ("success", JsonValue::Bool(true)),
        (
            "result",
            JsonValue::Arr(vec![
                obj(vec![("id", s("n1")), ("title", s("alpha"))]),
                obj(vec![("title", s("beta"))]),
            ]),
        ),
    ]);
    assert_eq!(
        interpret_namespace_list(&bad_element),
        Err(protocol("The 'id' field cannot be found in the 'result' field."))
    );
}

fn page(names: Vec<&str>, cursor: &str, count: u64) -> JsonValue {
    obj(vec![
        ("success", JsonValue::Bool(true)),
        (
            "result",
            JsonValue::Arr(names.into_iter().map(|n| obj(vec![("name", s(n))])).collect()),
        ),
        ("result_info", obj(vec![("cursor", s(cursor)), ("count", JsonValue::Num(count))])),
    ])
}

#[test]
fn keys_page_fields_are_exact() {
    let p = interpret_keys_page(&page(vec!["a", "b"], "X", 2)).unwrap();
    assert_eq!(p.names, vec!["a".to_string(), "b".to_string()]);
    assert_eq!(p.cursor, "X".to_string());
    assert_eq!(p.count, 2);
}

#[test]
fn keys_page_field_errors() {
    let no_result = obj(vec![("success", JsonValue::Bool(true))]);
    assert_eq!(interpret_keys_page(&no_result), Err(protocol("No result found in response.")));
    let not_array = obj(vec![("success", JsonValue::Bool(true)), ("result", JsonValue::Num(1))]);
    assert_eq!(interpret_keys_page(&not_array), Err(protocol("No result found in response.")));
    let no_name = obj(vec![
        ("success", JsonValue::Bool(true)),
        ("result", JsonValue::Arr(vec![obj(vec![("key", s("a"))])])),
    ]);
    assert_eq!(interpret_keys_page(&no_name), Err(protocol("No name found in response.")));
    let no_info = obj(vec![
        ("success", JsonValue::Bool(true)),
        ("result", JsonValue::Arr(vec![])),
    ]);
    assert_eq!(
        interpret_keys_page(&no_info),
        Err(protocol("No result_info found in response."))
    );
    let no_cursor = obj(vec![
        ("success", JsonValue::Bool(true)),
        ("result", JsonValue::Arr(vec![])),
        ("result_info", obj(vec![("count", JsonValue::Num(0))])),
    ]);
    assert_eq!(interpret_keys_page(&no_cursor), Err(protocol("No cursor found in response.")));
    let no_count = obj(vec![
        ("success", JsonValue::Bool(true)),
        ("result", JsonValue::Arr(vec![])),
        ("result_info", obj(vec![("cursor", s(""))])),
    ]);
    assert_eq!(interpret_keys_page(&no_count), Err(protocol("No count found in response.")));
}

#[test]
fn metadata_is_returned_unchanged() {
    let meta = obj(vec![("owner", s("me")), ("weight", JsonValue::Num(3))]);
    let v = obj(vec![("success", JsonValue::Bool(true)), ("result", meta.deep_clone())]);
    assert_eq!(interpret_metadata(&v), Ok(meta));
    let no_result = obj(vec![("success", JsonValue::Bool(true))]);
    assert_eq!(interpret_metadata(&no_result), Err(protocol("No result found in response.")));
}

#[test]
fn value_read_returns_the_body_verbatim() {
    let body = "raw stored text, not JSON {".to_string();
    assert_eq!(interpret_value_response(200, body.clone(), None), Ok(body.clone()));
    assert_eq!(interpret_value_response(500, body.clone(), None), Ok(body));
}

#[test]
fn value_read_404_is_not_found_with_the_parsed_body() {
    let parsed = obj(vec![("success", JsonValue::Bool(false)), ("errors", JsonValue::Arr(vec![]))]);
    let r = interpret_value_response(404, "ignored".to_string(), Some(parsed));
    assert_eq!(
        r,
        Err(KvError::NotFound("{\"success\":false,\"errors\":[]}".to_string()))
    );
    let unparsed = interpret_value_response(404, "not json".to_string(), None);
    assert_eq!(
        unparsed,
        Err(KvError::Transport(
            "The body of the response could not be parsed as JSON.".to_string()
        ))
    );
}

#[test]
fn error_detail_returns_the_carried_text() {
    assert_eq!(KvError::Transport("t".to_string()).detail().as_str(), "t");
    assert_eq!(KvError::Protocol("p".to_string()).detail().as_str(), "p");
    assert_eq!(KvError::RemoteRejection("r".to_string()).detail().as_str(), "r");
    assert_eq!(KvError::NotFound("n".to_string()).detail().as_str(), "n");
}

#[test]
fn empty_namespace_list_is_ok_and_empty() {
    let v = obj(vec![("success", JsonValue::Bool(true)), ("result", JsonValue::Arr(vec![]))]);
    assert_eq!(interpret_namespace_list(&v), Ok(vec![]));
}
