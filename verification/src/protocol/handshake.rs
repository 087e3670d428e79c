//! The handshake, with the protocol name held as a static text.
use vstd::prelude::*;

verus! {

/// Handshake request sent by client after the initial connection.
/// Handshake requests are used to negotiate the message type
///
/// This message is *always* json as per Hub protocol spec
#[derive(Debug)]
pub struct HandshakeRequest {
    pub protocol: &'static str,
    pub version: u8,
}

impl HandshakeRequest {
    /// Creates a request for the json protocol, version 1.
    pub fn new() -> (r: Self)
        ensures
            r.protocol@ == "json"@,
            r.version == 1,
    {
        HandshakeRequest { protocol: "json", version: 1 }
    }
}

/// Handshake response sent by the server to acknowledge the handshake request
///
/// Holds an error if the handshake failed
#[derive(Debug, Clone, PartialEq)]
pub struct HandshakeResponse {
    /// Optional error message only returned on protocol mismatches
    pub error: Option<String>,
}

} // verus!
