//! Verified core of a chat gateway that fronts a local inference server:
//! model-identifier normalization, schema-tolerant extraction of an answer
//! string from an arbitrarily shaped JSON document, and the per-event
//! decisions of the buffered and streaming response bridges.

pub mod bridge;
pub mod json;
pub mod normalize;
pub mod parse;
