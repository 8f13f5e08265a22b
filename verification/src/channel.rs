use crate::signal::oneshot;
use vstd::prelude::*;

verus! {

/// The error of a receive on a oneshot channel that got no value.
#[derive(Debug, Clone, Copy, PartialEq, Eq, Structural)]
pub enum RecvError {
    /// The sender has closed or gone away.
    Closed,
}

/// The value of a send that found the receiver gone.
pub struct SendError<T>(pub T);

impl RecvError {
    /// The text of this error.
    pub fn to_string(&self) -> (s: String)
        ensures
            s@ == "channel closed"@,
    {
        String::from_str("channel closed")
    }

    /// This error for a failed receive of the oneshot state machine.
    pub fn from_recv(_e: oneshot::RecvError) -> (r: RecvError)
        ensures
            r == RecvError::Closed,
    {
        RecvError::Closed
    }
}

impl<T> SendError<T> {
    /// The text of this error.
    pub fn to_string(&self) -> (s: String)
        ensures
            s@ == "receiver has been dropped"@,
    {
        String::from_str("receiver has been dropped")
    }

    /// This error for a refused send of the oneshot state machine, carrying the same value.
    pub fn from_send(e: oneshot::SendError<T>) -> (r: SendError<T>)
        ensures
            r.0 == e.0,
    {
        SendError(e.0)
    }
}

} // verus!
