//! Trusted window onto crossbeam's asynchronous channels.
//!
//! A reply channel delivers at most one outstanding reply per import call,
//! and what a `recv` returns depends on what other threads have sent, so
//! nothing is promised here about the values a channel hands over: the
//! verified callers state what holds of every outcome.

use vstd::prelude::*;
use crossbeam::channel::{Receiver, Sender};

verus! {

#[verifier::external_type_specification]
#[verifier::external_body]
#[verifier::reject_recursive_types(T)]
pub struct ExSender<T>(Sender<T>);

#[verifier::external_type_specification]
#[verifier::external_body]
#[verifier::reject_recursive_types(T)]
pub struct ExReceiver<T>(Receiver<T>);

/// Relies on crossbeam's `unbounded`: a fresh asynchronous channel of
/// unbounded capacity; sends on it never block.
#[verifier::external_body]
pub(crate) fn channel_unbounded<T>() -> (Sender<T>, Receiver<T>) {
    crossbeam::channel::unbounded()
}

/// Relies on crossbeam's `Sender::send`: on an unbounded channel it fails
/// only when every receiver has been dropped, and never blocks.
#[verifier::external_body]
pub(crate) fn chan_send<T>(tx: &Sender<T>, v: T) -> bool {
    tx.send(v).is_ok()
}

/// Relies on crossbeam's `Receiver::recv`: blocks until a value arrives,
/// or reports nothing once the channel is empty and every sender has been
/// dropped.
#[verifier::external_body]
pub(crate) fn chan_recv<T>(rx: &Receiver<T>) -> Option<T> {
    rx.recv().ok()
}

/// Relies on crossbeam's `Receiver::try_recv`: takes a value only if one
/// is ready at this instant; reports nothing when the channel is empty or
/// disconnected.
#[verifier::external_body]
pub(crate) fn chan_try_recv<T>(rx: &Receiver<T>) -> Option<T> {
    rx.try_recv().ok()
}

/// Relies on crossbeam's `Sender::clone`: the clone feeds the same channel.
#[verifier::external_body]
pub(crate) fn clone_sender<T>(tx: &Sender<T>) -> Sender<T> {
    tx.clone()
}

/// Relies on crossbeam's `Receiver::clone`: the clone drains the same
/// channel.
#[verifier::external_body]
pub(crate) fn clone_receiver<T>(rx: &Receiver<T>) -> Receiver<T> {
    rx.clone()
}

} // verus!
