//! Decoding and searching of OpenTelemetry protocol payloads.
//!
//! A payload is a byte string that holds one message of the OpenTelemetry
//! protocol in its protobuf encoding. The library names the message shapes it
//! knows, hands a payload to the codec of the requested shape, renders what
//! came back, and looks through an export request for a trace identifier.
//! Reading input and writing output are left to the caller.

pub mod text;
pub mod decimal;
pub mod shape;
pub mod codec;
pub mod rendering;
pub mod message;
pub mod decode;
pub mod otk_error;
pub mod common;
pub mod hexadecimal;
pub mod request;
pub mod encoding;
pub mod quarantine;
pub mod stream;
pub mod cmd_search;
pub mod traversal;
pub mod cmd_decode;
pub mod report;
