//! JSON-RPC 2.0 message envelopes and their codec.
//!
//! A message is built as a value of its type, encoded as a [`json::Json`]
//! value and written as text; a reply is read from text and decoded. The
//! rules of the envelope are stated once, over the mathematical values of
//! JSON, and every encoder and decoder is proved against them.

pub mod backend;
pub mod error;
pub mod fields;
pub mod header;
pub mod http;
pub mod id;
pub mod json;
pub mod laws;
pub mod request;
pub mod response;
pub mod text;
pub mod version;
pub mod wire;

pub use crate::error::{CodecError, Field};
pub use crate::id::RequestId;
pub use crate::json::{Fraction, Json, JsonNumber, Member};
pub use crate::request::{Notification, Request};
pub use crate::response::{ErrorRes, RawError, RawResponse, Response, ResultRes};
pub use crate::version::ProtocolVersion;
