//! The channels that connect the builtin API surface to the automation
//! worker, and a script's execution thread to the manager.
//!
//! The channel type is crossbeam's. Whether a send or a receive succeeds
//! depends on the far side (a worker or script thread that may have gone
//! away), so the wrappers promise nothing about outcomes; the verified
//! callers state what holds for every outcome.

use vstd::prelude::*;

verus! {

#[verifier::external_type_specification]
#[verifier::external_body]
#[verifier::reject_recursive_types(T)]
pub struct ExSender<T>(crossbeam::channel::Sender<T>);

#[verifier::external_type_specification]
#[verifier::external_body]
#[verifier::reject_recursive_types(T)]
pub struct ExReceiver<T>(crossbeam::channel::Receiver<T>);

/// Relies on crossbeam's `unbounded`: creates a channel of unlimited
/// capacity whose sender half never blocks.
#[verifier::external_body]
pub(crate) fn channel_unbounded<T>() -> (crossbeam::channel::Sender<T>, crossbeam::channel::Receiver<T>) {
    crossbeam::channel::unbounded()
}

/// Relies on crossbeam's `bounded` with capacity one: a single-use reply
/// channel for one query.
#[verifier::external_body]
pub(crate) fn channel_reply<T>() -> (crossbeam::channel::Sender<T>, crossbeam::channel::Receiver<T>) {
    crossbeam::channel::bounded(1)
}

/// Relies on crossbeam `Sender::clone`: the clone sends into the same
/// channel as the original.
#[verifier::external_body]
pub(crate) fn sender_clone<T>(s: &crossbeam::channel::Sender<T>) -> crossbeam::channel::Sender<T> {
    s.clone()
}

/// Relies on crossbeam `Sender::send`: delivers the message, blocking
/// while a bounded channel is full, and fails once all receivers are
/// gone; the error's display text names the condition.
#[verifier::external_body]
pub(crate) fn channel_send<T>(s: &crossbeam::channel::Sender<T>, msg: T) -> Result<(), String> {
    s.send(msg).map_err(|e| e.to_string())
}

/// Relies on crossbeam `Receiver::recv`: blocks until a message arrives,
/// or fails once the channel is empty and all senders are gone.
#[verifier::external_body]
pub(crate) fn channel_recv<T>(r: &crossbeam::channel::Receiver<T>) -> Result<T, ()> {
    r.recv().map_err(|_| ())
}

/// Relies on crossbeam's `after` and `Receiver::recv`: `after` delivers a
/// single message once the duration has elapsed, so the receive blocks the
/// calling thread for that long. Used by the `sleep` builtin; it does not
/// observe the cancellation flag, so a sleeping script reacts to a stop
/// only at its next interpreted step.
#[verifier::external_body]
pub(crate) fn block_for_millis(ms: u64) {
    let _ = crossbeam::channel::after(core::time::Duration::from_millis(ms)).recv();
}

} // verus!
