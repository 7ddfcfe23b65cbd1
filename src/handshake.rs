//! The channels that carry a question to the answer surface and back.
use vstd::prelude::*;
use tokio::sync::mpsc::{UnboundedReceiver, UnboundedSender};
use crate::question::QuestionEnum;

verus! {

/// The sending half of a tokio unbounded channel; opaque to proofs.
#[verifier::external_type_specification]
#[verifier::external_body]
#[verifier::reject_recursive_types(T)]
pub struct ExUnboundedSender<T>(UnboundedSender<T>);

/// The receiving half of a tokio unbounded channel; opaque to proofs.
#[verifier::external_type_specification]
#[verifier::external_body]
#[verifier::reject_recursive_types(T)]
pub struct ExUnboundedReceiver<T>(UnboundedReceiver<T>);

/// Relies on `UnboundedSender::send`: queues the question without blocking, and
/// fails only when the receiving half is gone.
#[verifier::external_body]
pub(crate) fn post(tx: &UnboundedSender<QuestionEnum>, q: QuestionEnum) -> (sent: bool) {
    tx.send(q).is_ok()
}

/// Relies on `UnboundedReceiver::try_recv`: takes the oldest queued question, if
/// any, without blocking.
#[verifier::external_body]
pub(crate) fn poll(rx: &mut UnboundedReceiver<QuestionEnum>) -> (r: Option<QuestionEnum>) {
    rx.try_recv().ok()
}

} // verus!
