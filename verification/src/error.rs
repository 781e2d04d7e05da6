//! Error types for the client, connection and session layers.

use vstd::prelude::*;
use vstd::string::*;

verus! {

broadcast use vstd::string::group_string_axioms;

/// Errors that can occur in the WebSocket transport, Noise handshake, or frame
/// processing.
#[derive(Clone, Debug)]
pub enum ConnectionError {
    /// Failed to encrypt a frame for sending.
    Encrypt(String),
    /// Failed to decrypt a received frame.
    Decrypt(String),
    /// Underlying socket/transport error.
    Socket(String),
    /// Protocol-level error (framing, node parsing, etc.).
    Protocol(String),
    /// Operation attempted while not connected.
    NotConnected,
    /// I/O error, carried as its message.
    Io(String),
}

/// The message a connection error displays.
pub open spec fn connection_error_text(e: ConnectionError) -> Seq<char> {
    match e {
        ConnectionError::Encrypt(s) => "encrypt failed: "@ + s@,
        ConnectionError::Decrypt(s) => "decrypt failed: "@ + s@,
        ConnectionError::Socket(s) => "socket error: "@ + s@,
        ConnectionError::Protocol(s) => "protocol error: "@ + s@,
        ConnectionError::NotConnected => "not connected"@,
        ConnectionError::Io(s) => s@,
    }
}

impl ConnectionError {
    /// The message this error displays.
    pub fn to_text(&self) -> (r: String)
        ensures
            r@ == connection_error_text(*self),
    {
        match self {
            ConnectionError::Encrypt(s) => {
                let mut out = "encrypt failed: ".to_string();
                out.append(s.as_str());
                out
            },
            ConnectionError::Decrypt(s) => {
                let mut out = "decrypt failed: ".to_string();
                out.append(s.as_str());
                out
            },
            ConnectionError::Socket(s) => {
                let mut out = "socket error: ".to_string();
                out.append(s.as_str());
                out
            },
            ConnectionError::Protocol(s) => {
                let mut out = "protocol error: ".to_string();
                out.append(s.as_str());
                out
            },
            ConnectionError::NotConnected => "not connected".to_string(),
            ConnectionError::Io(s) => s.clone(),
        }
    }
}

/// Authentication errors during pairing or login.
#[derive(Clone, Debug)]
pub enum AuthError {
    NotPaired,
    PairFailed(String),
    PairCodeInvalid,
    QrExpired,
    QrTimeout,
}

/// Errors from IQ (Info Query) request/response cycles.
#[derive(Clone, Debug)]
pub enum IqError {
    Timeout,
    ServerError(String),
    UnexpectedResponse(String),
    ParseError(String),
}

/// Errors from sending messages or performing message operations.
#[derive(Clone, Debug)]
pub enum SendError {
    InvalidRequest(String),
    EncryptionFailed(String),
    IqFailed(IqError),
}

/// The unified error type for client operations.
#[derive(Clone, Debug)]
pub enum ClientError {
    Connection(ConnectionError),
    NotConnected,
    NotLoggedIn,
    AlreadyConnected,
    Socket(String),
    EncryptSend(String),
    Iq(IqError),
    Auth(AuthError),
    Send(SendError),
    Protocol(String),
    /// I/O error, carried as its message.
    Io(String),
    Internal(String),
}

/// Error type for session operations.
#[derive(Clone, Debug)]
pub enum SessionError {
    NotFound,
    /// I/O error, carried as its message.
    Io(String),
    Internal(String),
}

} // verus!
