//! The result channel a task delivers its outcome on: a single-producer,
//! single-consumer pair whose consumer end the handle owns. What arrives and
//! when depends on the worker thread, so nothing is promised of any receive;
//! the handle's caching around these calls is what is verified.

use vstd::prelude::*;
use crossbeam::channel::Sender;
use crossbeam::channel::Receiver;
use crate::values::TaskOutcome;

verus! {

#[verifier::external_type_specification]
#[verifier::external_body]
#[verifier::reject_recursive_types(T)]
pub struct ExSender<T>(Sender<T>);

#[verifier::external_type_specification]
#[verifier::external_body]
#[verifier::reject_recursive_types(T)]
pub struct ExReceiver<T>(Receiver<T>);

/// Relies on crossbeam::channel::unbounded: a connected sender/receiver pair
/// with unbounded capacity.
#[verifier::external_body]
pub(crate) fn outcome_channel() -> (Sender<TaskOutcome>, Receiver<TaskOutcome>) {
    crossbeam::channel::unbounded()
}

/// Relies on crossbeam::channel::Sender::send: hands the outcome to the
/// channel; on an unbounded channel it fails only when the receiving side is
/// gone. The result says whether the channel accepted it.
#[verifier::external_body]
pub(crate) fn send_outcome(s: &Sender<TaskOutcome>, outcome: TaskOutcome) -> bool {
    s.send(outcome).is_ok()
}

/// Relies on crossbeam::channel::Receiver::try_recv: a message if one is
/// already waiting, without blocking; what arrives depends on the sending
/// thread, so nothing is promised of the value.
#[verifier::external_body]
pub(crate) fn try_recv_outcome(r: &Receiver<TaskOutcome>) -> Option<TaskOutcome> {
    r.try_recv().ok()
}

/// Relies on crossbeam::channel::Receiver::recv: blocks until a message
/// arrives; gives nothing only when the channel is empty with every sender
/// gone. What arrives depends on the sending thread, so nothing is promised
/// of the value.
#[verifier::external_body]
pub(crate) fn recv_outcome(r: &Receiver<TaskOutcome>) -> Option<TaskOutcome> {
    r.recv().ok()
}

} // verus!
