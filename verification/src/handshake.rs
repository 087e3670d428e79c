//! The handshake that opens every hub connection.
use vstd::prelude::*;

verus! {

/// Handshake request sent by client after the initial connection.
/// Handshake requests are used to negotiate the message type
///
/// This message is *always* json as per Hub protocol spec
#[derive(Debug)]
pub struct HandshakeRequest {
    pub protocol: String,
    pub version: u8,
}

impl HandshakeRequest {
    /// Creates a request for the json protocol, version 1; MessagePack is not offered.
    pub fn new() -> (r: Self)
        ensures
            r.protocol@ == "json"@,
            r.version == 1,
    {
        HandshakeRequest { protocol: "json".to_owned(), version: 1 }
    }
}

impl Default for HandshakeRequest {
    fn default() -> (r: Self)
        ensures
            r.protocol@ == "json"@,
            r.version == 1,
    {
        Self::new()
    }
}

/// Handshake response sent by the server to acknowledge the handshake request
///
/// Holds an error if the handshake failed
#[derive(Debug, Clone, PartialEq)]
pub struct HandshakeResponse {
    /// Optional error message only returned on protocol mismatches
    pub error: Option<String>,
}

} // verus!
