use vstd::prelude::*;
use crate::method::Method;

verus! {

/// What can go wrong between a caller and the backend.
#[derive(Debug)]
pub enum RouterError {
    /// One statement failed in the engine; carries the engine's message.
    Query(String),
    /// The parameters have the wrong number or shape for the method.
    InvalidParams(Method),
    /// The backend does not serve this method.
    Unsupported(Method),
    /// A reply did not have the shape that the request asks for.
    UnexpectedResponse,
    /// The backend's version string is not a semantic version.
    InvalidVersion(String),
    /// A key range was asked of a target that is not a whole table.
    InvalidRange,
    /// The connection's command queue is closed.
    ConnectionClosed,
}

} // verus!
