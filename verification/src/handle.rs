//! The error that a handle reports when the repeater's task is gone.

use tokio::sync::mpsc::error::SendError;
use tokio::sync::oneshot::error::RecvError;
use vstd::prelude::*;
use vstd::std_specs::convert::FromSpecImpl;

verus! {

/// `tokio::sync::mpsc::error::SendError`, returned by a send on a channel whose receiver
/// is gone. It holds the value that was not sent.
#[verifier::external_type_specification]
#[verifier::external_body]
#[verifier::reject_recursive_types(T)]
pub struct ExSendError<T>(SendError<T>);

/// `tokio::sync::oneshot::error::RecvError`, returned by a receive on a one-shot channel
/// whose sender was dropped without sending.
#[verifier::external_type_specification]
#[verifier::external_body]
pub struct ExRecvError(RecvError);

/// Error type for losing connection to the repeater.
#[derive(Debug)]
pub struct ConnectionLost;

impl ConnectionLost {
    /// The text that describes the error.
    pub fn message(&self) -> (text: String)
        ensures
            text@ == "Connection to repeater lost"@,
    {
        "Connection to repeater lost".to_owned()
    }
}

impl<T> From<SendError<T>> for ConnectionLost {
    fn from(_error: SendError<T>) -> (lost: Self) {
        ConnectionLost
    }
}

impl<T> FromSpecImpl<SendError<T>> for ConnectionLost {
    open spec fn obeys_from_spec() -> bool {
        true
    }

    open spec fn from_spec(_error: SendError<T>) -> Self {
        ConnectionLost
    }
}

impl From<RecvError> for ConnectionLost {
    fn from(_error: RecvError) -> (lost: Self) {
        ConnectionLost
    }
}

impl FromSpecImpl<RecvError> for ConnectionLost {
    open spec fn obeys_from_spec() -> bool {
        true
    }

    open spec fn from_spec(_error: RecvError) -> Self {
        ConnectionLost
    }
}

} // verus!
