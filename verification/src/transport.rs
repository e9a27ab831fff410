//! Trusted boundary around the standard library's unbounded channel.
//!
//! Each direction of a pair is one `std::sync::mpsc` channel: an ordered,
//! unbounded queue with one sending and one receiving handle. The handles are
//! opaque here; the functions below state only what the standard library
//! documents of every outcome.

use vstd::prelude::*;
use std::sync::mpsc::Sender;
use std::sync::mpsc::Receiver;

verus! {

#[verifier::external_type_specification]
#[verifier::external_body]
#[verifier::reject_recursive_types(T)]
pub struct ExSender<T>(Sender<T>);

#[verifier::external_type_specification]
#[verifier::external_body]
#[verifier::reject_recursive_types(T)]
pub struct ExReceiver<T>(Receiver<T>);

/// Relies on std::sync::mpsc::channel: returns the sending and the receiving
/// handle of a new unbounded FIFO queue.
#[verifier::external_body]
pub(crate) fn new_transport<T>() -> (Sender<T>, Receiver<T>) {
    std::sync::mpsc::channel()
}

/// Relies on std::sync::mpsc::Sender::send: enqueues without blocking; it
/// fails only when the receiving handle was dropped, and the error then hands
/// the value back unchanged.
#[verifier::external_body]
pub(crate) fn transport_send<T>(s: &Sender<T>, t: T) -> (r: Result<(), T>)
    ensures
        r matches Err(v) ==> v == t,
{
    match s.send(t) {
        Ok(()) => Ok(()),
        Err(std::sync::mpsc::SendError(v)) => Err(v),
    }
}

/// Relies on std::sync::mpsc::Receiver::recv: blocks until a value is
/// available, and fails only once the sending handle was dropped and the
/// queue is empty. Which value arrives depends on the peer, so nothing is
/// stated of the result.
#[verifier::external_body]
pub(crate) fn transport_recv<T>(r: &Receiver<T>) -> Result<T, ()> {
    match r.recv() {
        Ok(v) => Ok(v),
        Err(_) => Err(()),
    }
}

} // verus!
