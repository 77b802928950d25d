//! The handoff of one response from a component invocation back to the
//! connection that waits for it. The channel itself is single-use: its
//! producer end is consumed by the one write, and dropping it unwritten
//! closes the channel. What the waiting side makes of each outcome is
//! decided here.
use vstd::prelude::*;

verus! {

/// What the waiting side of the handoff received.
pub enum Delivery<R, E> {
    /// The producer wrote a response or a failure.
    Written(Result<R, E>),
    /// The producer end was dropped without a write.
    Abandoned,
}

/// Why a request produced no response.
#[derive(Debug)]
pub enum ResponseError<E> {
    /// The component reported this failure.
    Failed(E),
    /// The component ended without producing a response.
    NoResponse,
}

/// The status of the HTTP response sent for a failed request.
pub const FAILURE_STATUS: u16 = 500;

/// The result of a request given what its handoff delivered: the written
/// response, the written failure as is, or `NoResponse` when nothing was
/// written.
pub fn resolve_response<R, E>(delivery: Delivery<R, E>) -> (r: Result<R, ResponseError<E>>)
    ensures
        match delivery {
            Delivery::Written(Ok(v)) => r == Ok::<R, ResponseError<E>>(v),
            Delivery::Written(Err(e)) => r == Err::<R, ResponseError<E>>(ResponseError::Failed(e)),
            Delivery::Abandoned => r == Err::<R, ResponseError<E>>(ResponseError::NoResponse),
        },
{
    match delivery {
        Delivery::Written(Ok(v)) => Ok(v),
        Delivery::Written(Err(e)) => Err(ResponseError::Failed(e)),
        Delivery::Abandoned => Err(ResponseError::NoResponse),
    }
}

impl<E> ResponseError<E> {
    /// Whether the component ended without producing a response.
    pub fn is_no_response(&self) -> (r: bool)
        ensures
            r == (self is NoResponse),
    {
        match self {
            ResponseError::NoResponse => true,
            ResponseError::Failed(_) => false,
        }
    }

    /// The HTTP status sent to the client for this failure: a server error,
    /// whichever way the request failed.
    pub fn status(&self) -> (r: u16)
        ensures
            r == FAILURE_STATUS,
    {
        FAILURE_STATUS
    }
}

} // verus!
