//! The error taxonomy of the transport core.

use vstd::prelude::*;

verus! {

/// The deadline elapsed before the decorated operation produced a result.
///
/// Carries no payload beyond "deadline exceeded".
#[derive(Debug, Clone, Copy, PartialEq, Eq, Structural)]
pub struct Elapsed;

impl Elapsed {
    /// Construct a new elapsed error.
    pub fn new() -> (e: Elapsed)
        ensures
            e == Elapsed,
    {
        Elapsed
    }

    /// A diagnostic description of this error.
    pub fn message(&self) -> (s: &'static str)
        ensures
            s@ == "request timed out"@,
    {
        "request timed out"
    }
}

/// Everything that can go wrong in this layer, scoped to the call or
/// connection that produced it.
///
/// `E` is the opaque failure type of the wrapped operation; this core
/// never looks inside it.
#[derive(Debug, Clone, PartialEq, Eq)]
pub enum RpcError<E> {
    /// Opening the underlying connection failed.
    ConnectFailed,
    /// The framed byte stream failed; the inbound sequence has ended
    /// permanently.
    StreamFailed,
    /// The wrapped operation itself failed; its error is passed through
    /// unchanged.
    Operation(E),
    /// The deadline elapsed before the wrapped operation resolved.
    TimedOut(Elapsed),
}

impl<E> RpcError<E> {
    /// True exactly when this error reports an elapsed deadline.
    pub fn is_timeout(&self) -> (b: bool)
        ensures
            b == (self is TimedOut),
    {
        match self {
            RpcError::TimedOut(_) => true,
            _ => false,
        }
    }
}

} // verus!
