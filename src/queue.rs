//! Bounded multi-producer / single-consumer queues, carried by
//! `crossbeam_channel`, and the non-blocking drain that the viewer loop runs
//! on them.
use crossbeam_channel::{Receiver, Sender};
use vstd::prelude::*;

verus! {

/// `crossbeam_channel::Sender`, the producer end of a queue; opaque here.
#[verifier::external_type_specification]
#[verifier::external_body]
#[verifier::reject_recursive_types(T)]
pub struct ExSender<T>(crossbeam_channel::Sender<T>);

/// `crossbeam_channel::Receiver`, the consumer end of a queue; opaque here.
#[verifier::external_type_specification]
#[verifier::external_body]
#[verifier::reject_recursive_types(T)]
pub struct ExReceiver<T>(crossbeam_channel::Receiver<T>);

/// Relies on `crossbeam_channel::bounded`: opens a channel that holds at most
/// `cap` messages (`cap == 0` pairs each send with a receive). It panics only
/// on capacities far beyond the two that this library opens.
pub assume_specification<T>[ crossbeam_channel::bounded::<T> ](cap: usize) -> (Sender<T>, Receiver<T>)
    requires
        cap <= 1,
;

/// Relies on `crossbeam_channel::Receiver::len`: the number of messages in the
/// channel at the moment of the call, which other threads change at will.
pub assume_specification<T>[ crossbeam_channel::Receiver::<T>::len ](r: &Receiver<T>) -> usize;

/// Relies on `crossbeam_channel::Sender::send`: blocks until the message is
/// queued, or fails once every receiver is gone; a failure hands the message
/// back unchanged (`SendError(msg)`).
#[verifier::external_body]
pub(crate) fn enqueue<T>(tx: &Sender<T>, msg: T) -> (r: Result<(), T>)
    ensures
        r matches Err(m) ==> m == msg,
{
    tx.send(msg).map_err(|e| e.0)
}

/// Relies on `crossbeam_channel::Receiver::recv`: blocks until a message comes,
/// and gives `None` once the channel is empty and every sender is gone.
#[verifier::external_body]
pub(crate) fn dequeue<T>(rx: &Receiver<T>) -> (r: Option<T>) {
    rx.recv().ok()
}

/// Relies on `crossbeam_channel::Receiver::try_recv`: takes a message if one is
/// queued, without blocking.
#[verifier::external_body]
pub(crate) fn try_dequeue<T>(rx: &Receiver<T>) -> (r: Option<T>) {
    rx.try_recv().ok()
}

/// Adds what one non-blocking receive gave to `taken`, and tells whether the
/// drain goes on: it stops at the first receive that found nothing.
pub fn take_into<T>(taken: &mut Vec<T>, next: Option<T>) -> (more: bool)
    ensures
        more == next is Some,
        next matches Some(m) ==> final(taken)@ == old(taken)@.push(m),
        next is None ==> final(taken)@ == old(taken)@,
{
    match next {
        Some(m) => {
            taken.push(m);
            true
        },
        None => false,
    }
}

/// Takes, without blocking, at most `queued` messages, in the order in which
/// the queue hands them out, stopping early once the queue is empty. Callers
/// pass the number of messages queued when the drain begins, so a message
/// queued while the drain runs waits for the next drain: a drain never chases
/// producers.
pub fn drain_queued<T>(rx: &Receiver<T>, queued: usize) -> (r: Vec<T>)
    ensures
        r@.len() <= queued,
{
    let mut taken: Vec<T> = Vec::new();
    let mut i: usize = 0;
    while i < queued
        invariant
            i <= queued,
            taken@.len() == i,
        decreases queued - i,
    {
        if !take_into(&mut taken, try_dequeue(rx)) {
            break;
        }
        i = i + 1;
    }
    taken
}

} // verus!
