//! The crossbeam channel endpoints the controller polls and publishes on.
//!
//! A receive waits at most a short fixed timeout, so one UI tick never stalls
//! on a producer; a timed-out receive is the same as no message. What a
//! receive hands back depends on the producers on other threads, so nothing
//! is promised of it: callers state what holds whatever came back.

use vstd::prelude::*;

verus! {

#[verifier::external_type_specification]
#[verifier::external_body]
#[verifier::reject_recursive_types(T)]
pub struct ExReceiver<T>(crossbeam::channel::Receiver<T>);

#[verifier::external_type_specification]
#[verifier::external_body]
#[verifier::reject_recursive_types(T)]
pub struct ExSender<T>(crossbeam::channel::Sender<T>);

/// How long one receive may wait for a producer, in milliseconds: short
/// against the frame budget of a 30-60 Hz render loop.
pub const POLL_TIMEOUT_MS: u64 = 1;

/// Relies on crossbeam's `Receiver::recv_timeout`: waits at most the poll
/// timeout and hands back a message if one arrived. Which outcome occurs
/// depends on the producers, so nothing is promised of the result.
#[verifier::external_body]
pub(crate) fn recv_brief<T>(rx: &crossbeam::channel::Receiver<T>) -> Option<T> {
    rx.recv_timeout(std::time::Duration::from_millis(POLL_TIMEOUT_MS)).ok()
}

/// Relies on crossbeam's `Sender::send`: delivers the message, waiting for
/// room on a bounded channel, unless every receiver is gone, and says which
/// of the two happened. Whether the send lands depends on the consumer, so
/// nothing is promised of the result.
#[verifier::external_body]
pub(crate) fn send_value<T>(tx: &crossbeam::channel::Sender<T>, value: T) -> bool {
    tx.send(value).is_ok()
}

} // verus!
