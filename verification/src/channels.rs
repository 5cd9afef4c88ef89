use vstd::prelude::*;

use crate::messages::InboundMessage;

verus! {

#[verifier::external_type_specification]
#[verifier::external_body]
#[verifier::reject_recursive_types(T)]
pub struct ExSender<T>(crossbeam::channel::Sender<T>);

#[verifier::external_type_specification]
#[verifier::external_body]
#[verifier::reject_recursive_types(T)]
pub struct ExReceiver<T>(crossbeam::channel::Receiver<T>);

/// Relies on crossbeam_channel::Receiver::recv: blocks until a message is
/// available or every sender is gone. Which message arrives depends on the
/// other tasks, so nothing is promised of the value; `None` stands for the
/// channel being empty and disconnected.
#[verifier::external_body]
pub(crate) fn recv_inbound(rx: &crossbeam::channel::Receiver<InboundMessage>) -> Option<
    InboundMessage,
> {
    match rx.recv() {
        Ok(m) => Some(m),
        Err(_) => None,
    }
}

/// Relies on crossbeam_channel::Sender::send: on an unbounded channel it
/// never blocks and fails exactly when the receiving side is disconnected.
/// Delivery depends on the peer, so nothing is promised of the outcome;
/// the result tells whether the message was accepted.
#[verifier::external_body]
pub(crate) fn send_verdict(tx: &crossbeam::channel::Sender<bool>, verdict: bool) -> bool {
    tx.send(verdict).is_ok()
}

} // verus!
