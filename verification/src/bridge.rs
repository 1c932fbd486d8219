//! The computational core of the two response-mode bridges: upstream request
//! construction, the buffered bridge's reply, and the per-event decisions of
//! the streaming relay. Every upstream failure is converted here into an
//! in-band message; no error outcome escapes as one.

use vstd::prelude::*;
use vstd::string::*;
use crate::json::{extract_content, extract_spec};
use crate::normalize::{normalize_model, normalize_spec, opt_str_view};
use crate::parse::{parse_document, parsed_doc};

verus! {

/// One chat message, passed through unchanged from caller to upstream.
pub struct ChatMessage {
    pub role: String,
    pub content: String,
}

/// The inbound request: ordered messages, an optional model token, and an
/// optional stream flag. The flag is accepted but not consulted: which
/// endpoint was invoked selects the mode.
pub struct ChatRequest {
    pub messages: Vec<ChatMessage>,
    pub model: Option<String>,
    pub stream: Option<bool>,
}

/// The outbound request to the inference server, built fresh per call.
pub struct UpstreamChatRequest {
    pub model: String,
    pub messages: Vec<ChatMessage>,
    pub stream: bool,
}

/// The buffered bridge's reply to the caller.
pub struct ChatResponse {
    pub content: String,
}

/// Builds the upstream request: the model token normalized, the messages
/// passed through unchanged, the stream flag fixed by the calling bridge.
pub fn build_upstream_request(req: ChatRequest, stream: bool) -> (r: UpstreamChatRequest)
    ensures
        r.model@ == normalize_spec(opt_str_view(req.model)),
        r.messages == req.messages,
        r.stream == stream,
{
    let ChatRequest { messages, model, stream: _ } = req;
    UpstreamChatRequest { model: normalize_model(model), messages, stream }
}

/// What the buffered bridge answers for a given upstream body text: the
/// extracted answer string when the body parses as JSON and the search finds
/// one, else the raw body text verbatim.
pub open spec fn buffered_reply_spec(body: Seq<char>) -> Seq<char> {
    match parsed_doc(body) {
        Some(v) => match extract_spec(v) {
            Some(c) => c,
            None => body,
        },
        None => body,
    }
}

/// Turns the upstream body text into the buffered bridge's reply.
pub fn buffered_reply(body_text: String) -> (r: ChatResponse)
    ensures
        r.content@ == buffered_reply_spec(body_text@),
{
    match parse_document(body_text.as_str()) {
        Some(doc) => match extract_content(&doc) {
            Some(c) => ChatResponse { content: c },
            None => ChatResponse { content: body_text },
        },
        None => ChatResponse { content: body_text },
    }
}

/// The reply text when the upstream send itself fails.
pub open spec fn contact_error_spec(detail: Seq<char>) -> Seq<char> {
    "Error contacting Ollama API: "@ + detail
}

/// Builds the send-failure message around the transport's error detail.
pub fn contact_error_reply(detail: &str) -> (r: String)
    ensures
        r@ == contact_error_spec(detail@),
{
    let mut s = String::from_str("Error contacting Ollama API: ");
    s.append(detail);
    s
}

/// The reply text when the upstream body could not be read.
pub open spec fn read_error_spec(detail: Seq<char>) -> Seq<char> {
    "Failed to read response body: "@ + detail
}

/// Builds the body-read-failure message around the transport's error detail.
pub fn read_error_reply(detail: &str) -> (r: String)
    ensures
        r@ == read_error_spec(detail@),
{
    let mut s = String::from_str("Failed to read response body: ");
    s.append(detail);
    s
}

/// One outcome of reading the upstream byte stream.
pub enum UpstreamEvent {
    /// A chunk of bytes arrived.
    Chunk(Vec<u8>),
    /// Reading failed after the stream had started; carries the detail text.
    ReadError(String),
    /// The upstream stream completed.
    Closed,
}

/// What the relay does next after one upstream outcome.
pub enum RelayAction {
    /// Forward exactly one event with this payload and keep relaying.
    Forward(String),
    /// Forward exactly one final sentinel event with this payload, then stop.
    Abort(String),
    /// Stop relaying; no further event.
    Stop,
}

/// What decoding one chunk yields (see `decode_chunk`).
pub uninterp spec fn utf8_or_empty(b: Seq<u8>) -> Seq<char>;

/// Relies on `String::from_utf8`: a UTF-8 decode of the bytes; a chunk that
/// is not valid UTF-8 degrades to the empty string for that chunk rather
/// than failing the whole stream.
#[verifier::external_body]
fn decode_chunk(bytes: Vec<u8>) -> (r: String)
    ensures
        r@ == utf8_or_empty(bytes@),
{
    String::from_utf8(bytes).unwrap_or_else(|_| String::new())
}

/// The prefix that marks a mid-stream failure event, the caller's only
/// signal that the stream ended abnormally.
pub open spec fn stream_error_sentinel() -> Seq<char> {
    "__ERR__:"@
}

/// Decides what the relay does with one upstream outcome: a chunk is decoded
/// and forwarded as exactly one event, preserving chunk boundaries; a read
/// failure becomes exactly one final sentinel event; a completed upstream
/// stops the relay with no further event.
pub fn relay_step(event: UpstreamEvent) -> (action: RelayAction)
    ensures
        (match event {
            UpstreamEvent::Chunk(b) => (action matches RelayAction::Forward(s) && s@
                == utf8_or_empty(b@)),
            UpstreamEvent::ReadError(e) => (action matches RelayAction::Abort(s) && s@
                == stream_error_sentinel() + e@),
            UpstreamEvent::Closed => action is Stop,
        }),
{
    match event {
        UpstreamEvent::Chunk(bytes) => RelayAction::Forward(decode_chunk(bytes)),
        UpstreamEvent::ReadError(detail) => {
            let mut s = String::from_str("__ERR__:");
            s.append(detail.as_str());
            RelayAction::Abort(s)
        },
        UpstreamEvent::Closed => RelayAction::Stop,
    }
}

/// The full outbound event sequence of a streaming call whose upstream send
/// failed: exactly one event, carrying the contact-error text, and the
/// stream ends after it.
pub fn presend_failure_events(detail: &str) -> (events: Vec<String>)
    ensures
        events@.len() == 1,
        events@[0]@ == contact_error_spec(detail@),
{
    let mut events: Vec<String> = Vec::new();
    events.push(contact_error_reply(detail));
    events
}

/// The full outbound event sequence of a streaming call the upstream
/// answered with a non-success status: exactly one event, carrying the
/// upstream's error body, or a fixed text when that body could not be read.
pub fn error_status_events(body: Option<String>) -> (events: Vec<String>)
    ensures
        events@.len() == 1,
        (match body {
            Some(t) => events@[0]@ == t@,
            None => events@[0]@ == "unknown error from ollama"@,
        }),
{
    let mut events: Vec<String> = Vec::new();
    match body {
        Some(t) => events.push(t),
        None => events.push(String::from_str("unknown error from ollama")),
    }
    events
}

} // verus!
