use ollama_bridge::normalize::normalize_model;

#[test]
fn default_when_absent() {
    assert_eq!(normalize_model(None), "llama3:8b");
}

#[test]
fn alias_maps_to_default() {
    assert_eq!(normalize_model(Some("llama3.1".to_string())), "llama3:8b");
}

#[test]
fn dot_rewritten_to_colon() {
    assert_eq!(normalize_model(Some("foo.bar".to_string())), "foo:bar");
}

#[test]
fn colon_present_no_rewrite() {
    assert_eq!(normalize_model(Some("foo:bar".to_string())), "foo:bar");
}

#[test]
fn plain_name_unchanged() {
    assert_eq!(normalize_model(Some("plainname".to_string())), "plainname");
}

#[test]
fn dot_and_colon_unchanged() {
    assert_eq!(normalize_model(Some("a.b:c".to_string())), "a.b:c");
}

#[test]
fn normalization_is_idempotent() {
    let inputs = [
        "llama3.1",
        "foo.bar",
        "foo:bar",
        "plainname",
        "a.b:c",
        "llama3:8b",
        "",
        "x.y.z",
    ];
    for input in inputs {
        let once = normalize_model(Some(input.to_string()));
        let twice = normalize_model(Some(once.clone()));
        assert_eq!(twice, once);
    }
    let once = normalize_model(None);
    let twice = normalize_model(Some(once.clone()));
    assert_eq!(twice, once);
}
