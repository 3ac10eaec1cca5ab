//! The failures a connection can report.
//!
//! Nothing here is retried: an I/O or protocol failure ends the connection,
//! an authentication failure ends the connect attempt, and a server ERROR
//! frame is handed to the caller as a value.

use vstd::prelude::*;

use crate::frame::Opcode;

verus! {

/// Why an operation on a connection failed.
#[derive(Debug, PartialEq)]
pub enum DriverError {
    /// The channel's frame sequence has ended: transport failure or an
    /// undecodable frame.  Every waiter still outstanding receives this.
    StreamTerminated,
    /// A response body did not hold what its opcode requires.
    Protocol,
    /// The server demanded authentication but none was configured.
    NoAuthenticatorProvided,
    /// The server demanded a mechanism other than the configured one.
    /// Carries the server's mechanism name bytes and the client's name.
    AuthenticatorMismatch { server: Vec<u8>, client: String },
    /// A response opcode that the handshake state does not allow.
    UnexpectedOpcode { opcode: Opcode },
    /// The server answered with an ERROR frame; its code and message are
    /// delivered, not interpreted.
    Server { code: u32, message: Vec<u8> },
    /// A response to PREPARE carried no prepared-statement id.
    MissingPreparedId,
    /// A paged query's response was not a rows result.
    NotRows,
}

impl DriverError {
    /// A short fixed description of the failure kind.
    pub fn describe(&self) -> &'static str {
        match self {
            DriverError::StreamTerminated => "stream was terminated",
            DriverError::Protocol => "malformed response body",
            DriverError::NoAuthenticatorProvided => "no authenticator was provided",
            DriverError::AuthenticatorMismatch { .. } => "unsupported type of authenticator",
            DriverError::UnexpectedOpcode { .. } => "unexpected opcode during handshake",
            DriverError::Server { .. } => "server error response",
            DriverError::MissingPreparedId => "cannot get prepared query id from a response",
            DriverError::NotRows => "pager query should yield a vector of rows",
        }
    }
}

} // verus!
