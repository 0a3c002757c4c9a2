//! The bounded queue that carries a driver's events to their consumer.
use crate::types::DriverEvent;
use tokio::sync::mpsc::{Receiver, Sender};
use vstd::prelude::*;

verus! {

/// `tokio::sync::mpsc::Sender`: a sending end of a bounded queue.
#[verifier::external_type_specification]
#[verifier::external_body]
#[verifier::reject_recursive_types(T)]
pub struct ExSender<T>(Sender<T>);

/// `tokio::sync::mpsc::Receiver`: the receiving end of a bounded queue.
#[verifier::external_type_specification]
#[verifier::external_body]
#[verifier::reject_recursive_types(T)]
pub struct ExReceiver<T>(Receiver<T>);

/// The number of events that the queue behind a sending end was made to
/// hold: what `Sender::max_capacity` reports.
pub uninterp spec fn sender_bound(tx: Sender<DriverEvent>) -> nat;

/// The number of events that the queue behind a receiving end was made to
/// hold: what `Receiver::max_capacity` reports.
pub uninterp spec fn receiver_bound(rx: Receiver<DriverEvent>) -> nat;

/// The largest bound that a queue can be made with.
pub open spec fn max_stream_bound() -> nat {
    (usize::MAX / 8) as nat
}

/// Makes a queue with `tokio::sync::mpsc::channel`.
///
/// That function panics on a bound of zero or above `usize::MAX >> 3`, so
/// both are left out. It records the bound in the queue, where both ends
/// read it for `max_capacity`.
#[verifier::external_body]
pub(crate) fn open_stream(bound: usize) -> (ends: (Sender<DriverEvent>, Receiver<DriverEvent>))
    requires
        0 < bound <= max_stream_bound(),
    ensures
        sender_bound(ends.0) == bound,
        receiver_bound(ends.1) == bound,
{
    tokio::sync::mpsc::channel(bound)
}

/// Makes another sending end for the same queue with `Sender::clone`.
#[verifier::external_body]
pub(crate) fn share_sender(tx: &Sender<DriverEvent>) -> (other: Sender<DriverEvent>)
    ensures
        sender_bound(other) == sender_bound(*tx),
{
    tx.clone()
}

} // verus!
