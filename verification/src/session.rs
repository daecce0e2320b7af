//! The remote session manager: what a handshake is asked to do, and which
//! error a failed handshake is.

use vstd::prelude::*;
use vstd::string::*;
use crate::error::{ErrorKind, Failure, FailureView};
use crate::text::{contains_text, occurs_in};

verus! {

/// How the host's key is checked against the known hosts.
#[derive(Debug, Clone, Copy, PartialEq, Eq, Structural)]
pub enum HostKeyCheck {
    /// An unknown host aborts the handshake.
    Strict,
    /// An unknown host is added to the known hosts.
    Add,
    /// Every host is accepted.
    Accept,
}

/// The wall-clock deadline of the handshake, in seconds.
pub const HANDSHAKE_TIMEOUT_SECS: u64 = 5;

/// A handshake that the surrounding program is asked to perform.
#[derive(Debug, PartialEq, Eq)]
pub struct ConnectRequest {
    /// The host, in the form `[user@]host[:port]`.
    pub destination: String,
    pub host_keys: HostKeyCheck,
    pub timeout_secs: u64,
}

/// What a `ConnectRequest` holds, as plain values.
pub struct ConnectRequestView {
    pub destination: Seq<char>,
    pub host_keys: HostKeyCheck,
    pub timeout_secs: u64,
}

impl View for ConnectRequest {
    type V = ConnectRequestView;

    open spec fn view(&self) -> ConnectRequestView {
        ConnectRequestView {
            destination: self.destination@,
            host_keys: self.host_keys,
            timeout_secs: self.timeout_secs,
        }
    }
}

/// The handshake for `host`: strict host key checking, bounded by the
/// deadline.
pub open spec fn connect_request_of(host: Seq<char>) -> ConnectRequestView {
    ConnectRequestView {
        destination: host,
        host_keys: HostKeyCheck::Strict,
        timeout_secs: HANDSHAKE_TIMEOUT_SECS,
    }
}

/// The handshake to perform for `host`.
pub fn connect_request(host: &str) -> (request: ConnectRequest)
    ensures
        request@ == connect_request_of(host@),
{
    ConnectRequest {
        destination: String::from_str(host),
        host_keys: HostKeyCheck::Strict,
        timeout_secs: HANDSHAKE_TIMEOUT_SECS,
    }
}

/// How a handshake ended.
#[derive(Debug, PartialEq, Eq)]
pub enum Handshake {
    /// The session is ready to spawn commands.
    Established,
    /// The deadline passed before the handshake ended.
    DeadlineExceeded,
    /// The handshake failed. `permission_denied` says whether the failure was
    /// reported as a denied permission; `message` is what the secure shell
    /// said.
    Rejected { permission_denied: bool, message: String },
}

/// The sentence with which the secure shell reports a host whose key it does
/// not accept.
pub open spec fn host_key_sentence() -> Seq<char> {
    "Host key verification failed"@
}

/// The kind of a rejected handshake: a denied permission is `AuthFailed`, a
/// rejected host key is `HostUnknown`, anything else is `SessionError`.
pub open spec fn rejection_kind(permission_denied: bool, message: Seq<char>) -> ErrorKind {
    if permission_denied {
        ErrorKind::AuthFailed
    } else if occurs_in(message, host_key_sentence()) {
        ErrorKind::HostUnknown
    } else {
        ErrorKind::SessionError
    }
}

/// The failure that a handshake amounts to, if any.
pub open spec fn handshake_failure(handshake: Handshake) -> Option<FailureView> {
    match handshake {
        Handshake::Established => None,
        Handshake::DeadlineExceeded => Some(
            FailureView { kind: ErrorKind::ConnectTimeout, reason: "Timed out connecting to host"@ },
        ),
        Handshake::Rejected { permission_denied, message } => Some(
            FailureView {
                kind: rejection_kind(permission_denied, message@),
                reason: "Failed to connect to host: "@ + message@,
            },
        ),
    }
}

/// The view of an optional failure.
pub open spec fn failure_view(f: Option<Failure>) -> Option<FailureView> {
    match f {
        Some(f) => Some(f@),
        None => None,
    }
}

/// Decides whether a handshake succeeded, and if not, which error it is.
pub fn classify_handshake(handshake: Handshake) -> (failure: Option<Failure>)
    ensures
        failure_view(failure) == handshake_failure(handshake),
{
    match handshake {
        Handshake::Established => None,
        Handshake::DeadlineExceeded => Some(
            Failure::new(ErrorKind::ConnectTimeout, "Timed out connecting to host"),
        ),
        Handshake::Rejected { permission_denied, message } => {
            let kind = if permission_denied {
                ErrorKind::AuthFailed
            } else if contains_text(message.as_str(), "Host key verification failed") {
                ErrorKind::HostUnknown
            } else {
                ErrorKind::SessionError
            };
            let reason = String::from_str("Failed to connect to host: ").concat(message.as_str());
            Some(Failure { kind, reason })
        },
    }
}

} // verus!
