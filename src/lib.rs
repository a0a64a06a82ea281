//! Client for a cryptocurrency exchange's trading API, over REST and over a
//! websocket stream.
//!
//! Every function here carries a contract that Verus proves: signing
//! (`signer`); the operations and the text they send (`request`, `json`,
//! `decimal`, `model`); the wire request of an operation, its signed canonical
//! path, and the response envelope (`client`, `endpoint`); and the messages and
//! state of a stream session (`websocket`). Moving the bytes is left to the
//! caller.

pub mod text;
pub mod error;
pub mod signer;
pub mod json;
pub mod decimal;
pub mod model;
pub mod request;
pub mod endpoint;
pub mod client;
pub mod websocket;
