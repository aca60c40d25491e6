use vstd::prelude::*;

use std::sync::mpsc::{Receiver, Sender};

verus! {

#[verifier::external_type_specification]
#[verifier::external_body]
#[verifier::reject_recursive_types(T)]
pub struct ExSender<T>(Sender<T>);

#[verifier::external_type_specification]
#[verifier::external_body]
#[verifier::reject_recursive_types(T)]
pub struct ExReceiver<T>(Receiver<T>);

/// Relies on std::sync::mpsc::Sender::send: delivery succeeds exactly
/// when the receiving end is still alive, which depends on the other
/// thread, so nothing is promised of the outcome.
#[verifier::external_body]
pub(crate) fn ch_send<T>(sender: &Sender<T>, value: T) -> bool {
    sender.send(value).is_ok()
}

/// Relies on std::sync::mpsc::Receiver::recv: blocks for the next value,
/// `None` once the sending side is gone; what arrives depends on the
/// other thread, so nothing is promised of the outcome.
#[verifier::external_body]
pub(crate) fn ch_recv<T>(receiver: &Receiver<T>) -> Option<T> {
    receiver.recv().ok()
}

} // verus!
