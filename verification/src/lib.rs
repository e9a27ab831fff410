//! Bidirectional channels.
//!
//! A standard channel is one-directional: one end only sends and the other
//! only receives. This library composes two such channels into a symmetric
//! pair. `BiChannel::new` builds two complementary [`Endpoint`]s, cross-wired
//! so that whatever one endpoint sends the other receives, each direction an
//! independent FIFO queue. Each endpoint owns its two handles exclusively and
//! can be moved wholesale into its own worker.
//!
//! The intended behaviour of one pair is written down in [`model`], together
//! with proofs that the cross-wiring keeps the two directions independent,
//! delivers each direction's values in send order, and turns the destruction
//! of either endpoint into the permanent, deterministic errors that `send`
//! and `recv` report.

use vstd::prelude::*;

mod transport;
pub mod model;

verus! {

/// Error returned by [`Endpoint::send`] when the peer's receiving handle is
/// gone; it carries the undelivered value back to the caller.
#[derive(Debug)]
pub struct SendError<T>(pub T);

/// Error returned by [`Endpoint::recv`] once the peer's sending handle is
/// gone and no values are pending.
#[derive(Debug, PartialEq, Eq, Structural)]
pub struct RecvError;

/// One side of a bidirectional pair: the exclusive owner of a sending handle
/// for values of type `T1` and a receiving handle for values of type `T2`.
#[verifier::reject_recursive_types(T1)]
#[verifier::reject_recursive_types(T2)]
pub struct Endpoint<T1, T2> {
    sender: std::sync::mpsc::Sender<T1>,
    receiver: std::sync::mpsc::Receiver<T2>,
}

impl<T1: Send, T2: Send> Endpoint<T1, T2> {
    /// Enqueues `t` for the peer endpoint and returns without blocking,
    /// however many values are already queued. It fails exactly when the
    /// peer's receiving handle has been dropped; the error then carries `t`
    /// back unchanged, so the caller may recover it, as
    /// [`model::lemma_send_a_decided_by_peer`] states of the model.
    pub fn send(&self, t: T1) -> (r: Result<(), SendError<T1>>)
        ensures
            r matches Err(e) ==> e.0 == t,
    {
        match transport::transport_send(&self.sender, t) {
            Ok(()) => Ok(()),
            Err(v) => Err(SendError(v)),
        }
    }

    /// Blocks the calling worker until a value sent by the peer is available
    /// and returns it; values arrive in send order. It fails exactly when the
    /// peer's sending handle has been dropped and no values are pending, and
    /// then keeps failing, as [`model::lemma_recv_b_disconnected`] states of
    /// the model.
    pub fn recv(&self) -> Result<T2, RecvError> {
        match transport::transport_recv(&self.receiver) {
            Ok(v) => Ok(v),
            Err(()) => Err(RecvError),
        }
    }
}

/// The two complementary endpoints of one bidirectional pair. The record is
/// transient: construction returns it and the two fields are moved out, one
/// per worker.
#[verifier::reject_recursive_types(T1)]
#[verifier::reject_recursive_types(T2)]
pub struct BiChannel<T1, T2> {
    pub a: Endpoint<T1, T2>,
    pub b: Endpoint<T2, T1>,
}

impl<T1: Send, T2: Send> BiChannel<T1, T2> {
    /// Creates two independent transports and cross-wires them: `a`'s sending
    /// handle and `b`'s receiving handle are the two ends of one queue, and
    /// `b`'s sending handle and `a`'s receiving handle the two ends of the
    /// other. Both directions start empty and both endpoints live, as
    /// [`model::PairModel::empty`] describes. Construction cannot fail.
    pub fn new() -> BiChannel<T1, T2> {
        let (tx1, rx1) = transport::new_transport::<T1>();
        let (tx2, rx2) = transport::new_transport::<T2>();
        BiChannel {
            a: Endpoint { sender: tx1, receiver: rx2 },
            b: Endpoint { sender: tx2, receiver: rx1 },
        }
    }
}

} // verus!
