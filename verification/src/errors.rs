//! The closed set of failures an unlock exchange can end in. None of them is
//! recovered locally: each aborts the single-attempt exchange and is surfaced
//! to the caller as a distinct, inspectable value.

use vstd::prelude::*;

use crate::codec::ProtocolError;

verus! {

/// Why the service rejected an unlock request that reached it.
#[derive(Clone, Copy, Debug, PartialEq, Eq, Structural)]
pub enum AuthReason {
    Denied,
    Failed,
    NoDaemon,
}

/// Everything that can end the exchange short of success: the endpoint could
/// not be resolved, the connection could not be opened, a write or read came
/// up short, the stream ended before a full response, the response broke the
/// protocol, or the service rejected the credential.
#[derive(Clone, Copy, Debug, PartialEq, Eq, Structural)]
pub enum UnlockError {
    EndpointNotFound,
    ConnectionFailed,
    IoError,
    ConnectionClosed,
    Protocol(ProtocolError),
    AuthFailure(AuthReason),
}

/// The words an authentication failure is reported with.
pub open spec fn spec_auth_message(reason: AuthReason) -> Seq<char> {
    match reason {
        AuthReason::Denied => "denied"@,
        AuthReason::Failed => "failed"@,
        AuthReason::NoDaemon => "service not running"@,
    }
}

/// The words an unlock failure is reported with.
pub open spec fn spec_error_message(e: UnlockError) -> Seq<char> {
    match e {
        UnlockError::EndpointNotFound => "keyring control endpoint not found"@,
        UnlockError::ConnectionFailed => "could not connect to the keyring control socket"@,
        UnlockError::IoError => "short read or write on the control socket"@,
        UnlockError::ConnectionClosed => "connection closed before a full response"@,
        UnlockError::Protocol(ProtocolError::UnexpectedFrameSize(_)) => (
            "unexpected response frame size"@
        ),
        UnlockError::Protocol(ProtocolError::UnknownResultCode(_)) => (
            "unknown result code in response"@
        ),
        UnlockError::AuthFailure(reason) => spec_auth_message(reason),
    }
}

impl AuthReason {
    /// The reason in words, as the outcome mapping reports it.
    pub fn message(&self) -> (r: String)
        ensures
            r@ == spec_auth_message(*self),
    {
        match self {
            AuthReason::Denied => "denied".to_owned(),
            AuthReason::Failed => "failed".to_owned(),
            AuthReason::NoDaemon => "service not running".to_owned(),
        }
    }
}

impl UnlockError {
    /// The failure in words, one line per variant of the closed set.
    pub fn message(&self) -> (r: String)
        ensures
            r@ == spec_error_message(*self),
    {
        match self {
            UnlockError::EndpointNotFound => "keyring control endpoint not found".to_owned(),
            UnlockError::ConnectionFailed => (
                "could not connect to the keyring control socket".to_owned()
            ),
            UnlockError::IoError => "short read or write on the control socket".to_owned(),
            UnlockError::ConnectionClosed => "connection closed before a full response".to_owned(),
            UnlockError::Protocol(ProtocolError::UnexpectedFrameSize(_)) => (
                "unexpected response frame size".to_owned()
            ),
            UnlockError::Protocol(ProtocolError::UnknownResultCode(_)) => (
                "unknown result code in response".to_owned()
            ),
            UnlockError::AuthFailure(reason) => reason.message(),
        }
    }
}

} // verus!
