//! Errors of the thread loop and of backend requests.

use vstd::prelude::*;

verus! {

/// An error of the thread loop.
#[derive(Debug, Clone, PartialEq, Eq)]
pub enum Error {
    /// The operating system refused an action; the message says why.
    Os(String),
    /// The action was ignored, as it had no effect in the current state.
    Ignored,
    /// Any other failure.
    Other(String),
    /// A channel between the two threads was closed.
    Disconnected(String),
}

/// Why no event could be taken from the thread loop.
#[derive(Debug, Clone, Copy, PartialEq, Eq)]
pub enum NextEventError {
    /// No new events are available.
    Empty,
    /// The server side has gone away.
    Disconnected,
}

/// An error of a request made to a backend.
#[derive(Debug, Clone, PartialEq, Eq)]
pub enum RequestError {
    /// The request cannot be served on this platform.
    NotSupported(String),
    /// The operating system failed the request.
    Os(String),
}

} // verus!
