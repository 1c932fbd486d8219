use ollama_bridge::json::{extract_content, JsonValue};

fn obj(entries: Vec<(&str, JsonValue)>) -> JsonValue {
    JsonValue::Obj(entries.into_iter().map(|(k, v)| (k.to_string(), v)).collect())
}

fn s(text: &str) -> JsonValue {
    JsonValue::Str(text.to_string())
}

#[test]
fn message_content_found() {
    let doc = obj(vec![("message", obj(vec![("content", s("hi"))]))]);
    assert_eq!(extract_content(&doc), Some("hi".to_string()));
}

#[test]
fn direct_content_found() {
    let doc = obj(vec![("content", s("hi"))]);
    assert_eq!(extract_content(&doc), Some("hi".to_string()));
}

#[test]
fn recursion_into_other_keys() {
    let doc = obj(vec![("foo", obj(vec![("content", s("nested"))]))]);
    assert_eq!(extract_content(&doc), Some("nested".to_string()));
}

#[test]
fn bare_string_leaf_is_no_candidate() {
    let doc = obj(vec![("a", JsonValue::Num), ("b", s("text"))]);
    assert_eq!(extract_content(&doc), None);
}

#[test]
fn array_elements_searched_in_order() {
    let doc = JsonValue::Arr(vec![s("x"), obj(vec![("content", s("found"))])]);
    assert_eq!(extract_content(&doc), Some("found".to_string()));
}

#[test]
fn direct_content_wins_over_message() {
    let doc = obj(vec![
        ("content", s("direct")),
        ("message", obj(vec![("content", s("inner"))])),
    ]);
    assert_eq!(extract_content(&doc), Some("direct".to_string()));
}

#[test]
fn non_string_content_falls_through() {
    let doc = obj(vec![
        ("content", JsonValue::Num),
        ("deeper", obj(vec![("content", s("below"))])),
    ]);
    assert_eq!(extract_content(&doc), Some("below".to_string()));
}

#[test]
fn scalar_leaves_yield_nothing() {
    assert_eq!(extract_content(&JsonValue::Null), None);
    assert_eq!(extract_content(&JsonValue::Bool(true)), None);
    assert_eq!(extract_content(&JsonValue::Num), None);
    assert_eq!(extract_content(&s("hi")), None);
    assert_eq!(extract_content(&JsonValue::Arr(vec![])), None);
    assert_eq!(extract_content(&JsonValue::Obj(vec![])), None);
}
