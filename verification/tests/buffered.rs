use ollama_bridge::bridge::{buffered_reply, contact_error_reply, read_error_reply};

#[test]
fn round_trip_message_content() {
    let reply = buffered_reply("{\"message\":{\"content\":\"hello\"}}".to_string());
    assert_eq!(reply.content, "hello");
}

#[test]
fn malformed_json_falls_back_to_raw_text() {
    let reply = buffered_reply("not json{{".to_string());
    assert_eq!(reply.content, "not json{{");
}

#[test]
fn valid_json_without_answer_falls_back_to_raw_text() {
    let body = "{\"a\": 1, \"b\": \"text\"}";
    let reply = buffered_reply(body.to_string());
    assert_eq!(reply.content, body);
}

#[test]
fn top_level_content_key() {
    let reply = buffered_reply("{\"content\": \"hi\"}".to_string());
    assert_eq!(reply.content, "hi");
}

#[test]
fn answer_inside_array() {
    let reply = buffered_reply("[\"x\", {\"content\": \"found\"}]".to_string());
    assert_eq!(reply.content, "found");
}

#[test]
fn contact_error_message_text() {
    assert_eq!(
        contact_error_reply("connection refused"),
        "Error contacting Ollama API: connection refused"
    );
}

#[test]
fn read_error_message_text() {
    assert_eq!(
        read_error_reply("timed out"),
        "Failed to read response body: timed out"
    );
}
