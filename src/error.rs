//! Errors of the session engine.
use vstd::prelude::*;

verus! {

/// What can go wrong between the session and the answer surface.
#[derive(Clone, Copy, Debug, PartialEq, Eq, Structural)]
pub enum ExamError {
    /// A second answer request while one is in flight, or an answer for a
    /// question that is not awaited.
    ProtocolViolation,
    /// The other end of the handshake channel is gone.
    Disconnected,
}

} // verus!
