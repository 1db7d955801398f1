//! Typed errors of the client: every public operation reports failure
//! through one of these variants, never by panicking.

use vstd::prelude::*;

verus! {

/// The failure kinds a client operation can report.
#[derive(Clone, Copy, Debug, PartialEq, Eq, Structural)]
pub enum KumaError {
    /// The transport could not be opened.
    ConnectionFailed,
    /// The login request timed out or was rejected.
    AuthenticationFailed,
    /// The monitor list never arrived within the polling bound.
    ListRefreshTimedOut,
    /// A cached monitor already carries the same uid.
    DuplicateMonitor,
    /// The server rejected the creation, the acknowledgement timed out,
    /// or its payload was malformed.
    CreationFailed,
    /// An operation that assumes an active connection found none.
    DisconnectedStateError,
}

/// The description of each error.
pub open spec fn spec_message(e: KumaError) -> Seq<char> {
    match e {
        KumaError::ConnectionFailed => "could not open the connection"@,
        KumaError::AuthenticationFailed => "authentication failed"@,
        KumaError::ListRefreshTimedOut => "timed out waiting for the monitor list"@,
        KumaError::DuplicateMonitor => "a monitor with the same uid already exists"@,
        KumaError::CreationFailed => "monitor creation failed"@,
        KumaError::DisconnectedStateError => "no active connection"@,
    }
}

impl KumaError {
    /// A human-readable description of the error.
    pub fn message(&self) -> (s: String)
        ensures
            s@ == spec_message(*self),
            s@.len() > 0,
    {
        proof {
            reveal_strlit("could not open the connection");
            reveal_strlit("authentication failed");
            reveal_strlit("timed out waiting for the monitor list");
            reveal_strlit("a monitor with the same uid already exists");
            reveal_strlit("monitor creation failed");
            reveal_strlit("no active connection");
        }
        match self {
            KumaError::ConnectionFailed => String::from_str("could not open the connection"),
            KumaError::AuthenticationFailed => String::from_str("authentication failed"),
            KumaError::ListRefreshTimedOut => String::from_str(
                "timed out waiting for the monitor list",
            ),
            KumaError::DuplicateMonitor => String::from_str(
                "a monitor with the same uid already exists",
            ),
            KumaError::CreationFailed => String::from_str("monitor creation failed"),
            KumaError::DisconnectedStateError => String::from_str("no active connection"),
        }
    }
}

} // verus!
