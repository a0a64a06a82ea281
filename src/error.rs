//! The errors that requests and stream sessions report.

use vstd::prelude::*;

verus! {

/// The error that `serde_json` reports when a text is not the expected JSON.
#[verifier::external_type_specification]
#[verifier::external_body]
pub struct ExJsonError(serde_json::Error);

/// The error that `url` reports when a text is not a URL.
#[verifier::external_type_specification]
#[verifier::external_body]
pub struct ExUrlParseError(url::ParseError);

/// The kinds of websocket frame that may not carry an application message.
#[derive(Debug, Clone, Copy, PartialEq, Eq, Structural)]
pub enum UnexpectedFrame {
    Binary,
    Ping,
    Pong,
    Raw,
}

/// Every failure of a request or of a stream session.
#[derive(Debug)]
pub enum ClientError {
    /// The operation needs credentials and none are configured.
    AuthConfigMissing,
    /// The private key cannot key the MAC.
    InvalidKey,
    /// The request URL could not be built.
    InvalidUrl(url::ParseError),
    /// The channel failed to connect, send or receive.
    Transport { message: String },
    /// The server answered with a status outside 2xx.
    HttpStatus { status: u16, body: String },
    /// The envelope said `"success": false`.
    Application { body: String },
    /// A payload did not have the expected JSON shape.
    Decode { payload: String, cause: Option<serde_json::Error> },
    /// A frame of a kind that carries no application message.
    ProtocolViolation { frame: UnexpectedFrame },
    /// The stream session is closed.
    SessionClosed,
}

} // verus!
