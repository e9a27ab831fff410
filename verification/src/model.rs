//! The specification model of one bidirectional pair.
//!
//! Each direction is an ordered queue of the values sent and not yet
//! received, oldest first. A send appends to its own direction's queue; a
//! receive pops the front of the other direction's queue. Destroying an
//! endpoint takes both of its handles with it, and the operations of the
//! surviving endpoint then fail as the error types describe. The proof
//! functions state the pair's laws: values sent in one direction come out of
//! that direction, in send order, the two directions never interfere, and
//! disconnection is detected deterministically and permanently.

use vstd::prelude::*;

verus! {

/// The state of one pair: the pending values of each direction, oldest first,
/// and whether each endpoint still exists. `a_to_b` holds what endpoint `a`
/// has sent and `b` has not yet received; `b_to_a` the converse. A dropped
/// endpoint's handles are gone with it, so no operation of that endpoint is
/// modelled afterwards.
pub struct PairModel<T1, T2> {
    pub a_to_b: Seq<T1>,
    pub b_to_a: Seq<T2>,
    pub a_live: bool,
    pub b_live: bool,
}

impl<T1, T2> PairModel<T1, T2> {
    /// Both directions empty and both endpoints live: the state
    /// `BiChannel::new` leaves.
    pub open spec fn empty() -> PairModel<T1, T2> {
        PairModel { a_to_b: Seq::empty(), b_to_a: Seq::empty(), a_live: true, b_live: true }
    }

    /// The effect of a successful `a.send(v)`.
    pub open spec fn send_a(self, v: T1) -> PairModel<T1, T2> {
        PairModel { a_to_b: self.a_to_b.push(v), ..self }
    }

    /// The effect of a successful `b.send(v)`.
    pub open spec fn send_b(self, v: T2) -> PairModel<T1, T2> {
        PairModel { b_to_a: self.b_to_a.push(v), ..self }
    }

    /// The effect of destroying endpoint `a` without reading further: its
    /// sending and receiving handles are gone.
    pub open spec fn drop_a(self) -> PairModel<T1, T2> {
        PairModel { a_live: false, ..self }
    }

    /// The effect of destroying endpoint `b` without reading further: its
    /// sending and receiving handles are gone.
    pub open spec fn drop_b(self) -> PairModel<T1, T2> {
        PairModel { b_live: false, ..self }
    }

    /// Whether a value is pending for `b.recv`.
    pub open spec fn b_can_recv(self) -> bool {
        self.a_to_b.len() > 0
    }

    /// Whether a value is pending for `a.recv`.
    pub open spec fn a_can_recv(self) -> bool {
        self.b_to_a.len() > 0
    }

    /// The value `b.recv` returns and the state it leaves, when a value is
    /// pending.
    pub open spec fn recv_b(self) -> (T1, PairModel<T1, T2>)
        recommends
            self.b_can_recv(),
    {
        (self.a_to_b.first(), PairModel { a_to_b: self.a_to_b.drop_first(), ..self })
    }

    /// The value `a.recv` returns and the state it leaves, when a value is
    /// pending.
    pub open spec fn recv_a(self) -> (T2, PairModel<T1, T2>)
        recommends
            self.a_can_recv(),
    {
        (self.b_to_a.first(), PairModel { b_to_a: self.b_to_a.drop_first(), ..self })
    }

    /// The outcome of `a.send(v)`: to a live peer the value is enqueued, to a
    /// destroyed one the call fails and the error hands `v` back.
    pub open spec fn send_a_outcome(self, v: T1) -> (Result<(), T1>, PairModel<T1, T2>) {
        if self.b_live {
            (Ok(()), self.send_a(v))
        } else {
            (Err(v), self)
        }
    }

    /// The outcome of `b.send(v)`: to a live peer the value is enqueued, to a
    /// destroyed one the call fails and the error hands `v` back.
    pub open spec fn send_b_outcome(self, v: T2) -> (Result<(), T2>, PairModel<T1, T2>) {
        if self.a_live {
            (Ok(()), self.send_b(v))
        } else {
            (Err(v), self)
        }
    }

    /// Whether `b.recv` would return rather than suspend: a value is pending,
    /// or the peer's sending handle is gone.
    pub open spec fn recv_b_returns(self) -> bool {
        self.b_can_recv() || !self.a_live
    }

    /// Whether `a.recv` would return rather than suspend.
    pub open spec fn recv_a_returns(self) -> bool {
        self.a_can_recv() || !self.b_live
    }

    /// The outcome of `b.recv`, when it returns: the oldest pending value if
    /// one exists, the disconnection error once the peer is gone and the
    /// direction is drained.
    pub open spec fn recv_b_outcome(self) -> (Result<T1, ()>, PairModel<T1, T2>)
        recommends
            self.recv_b_returns(),
    {
        if self.b_can_recv() {
            (Ok(self.recv_b().0), self.recv_b().1)
        } else {
            (Err(()), self)
        }
    }

    /// The outcome of `a.recv`, when it returns.
    pub open spec fn recv_a_outcome(self) -> (Result<T2, ()>, PairModel<T1, T2>)
        recommends
            self.recv_a_returns(),
    {
        if self.a_can_recv() {
            (Ok(self.recv_a().0), self.recv_a().1)
        } else {
            (Err(()), self)
        }
    }

    /// The state after `a` attempts to send the values of `vs`, oldest first,
    /// each attempt returning its own outcome.
    pub open spec fn try_send_all_a(self, vs: Seq<T1>) -> PairModel<T1, T2>
        decreases vs.len(),
    {
        if vs.len() == 0 {
            self
        } else {
            self.send_a_outcome(vs.first()).1.try_send_all_a(vs.drop_first())
        }
    }

    /// The state after `a` sends the values of `vs`, oldest first.
    pub open spec fn send_all_a(self, vs: Seq<T1>) -> PairModel<T1, T2>
        decreases vs.len(),
    {
        if vs.len() == 0 {
            self
        } else {
            self.send_a(vs.first()).send_all_a(vs.drop_first())
        }
    }

    /// The state after `b` sends the values of `vs`, oldest first.
    pub open spec fn send_all_b(self, vs: Seq<T2>) -> PairModel<T1, T2>
        decreases vs.len(),
    {
        if vs.len() == 0 {
            self
        } else {
            self.send_b(vs.first()).send_all_b(vs.drop_first())
        }
    }

    /// Everything `b.recv` yields, called until its direction is empty, in
    /// the order the calls return it.
    pub open spec fn recv_all_b(self) -> Seq<T1>
        decreases self.a_to_b.len(),
    {
        if self.b_can_recv() {
            seq![self.recv_b().0] + self.recv_b().1.recv_all_b()
        } else {
            Seq::empty()
        }
    }

    /// Everything `a.recv` yields, called until its direction is empty, in
    /// the order the calls return it.
    pub open spec fn recv_all_a(self) -> Seq<T2>
        decreases self.b_to_a.len(),
    {
        if self.a_can_recv() {
            seq![self.recv_a().0] + self.recv_a().1.recv_all_a()
        } else {
            Seq::empty()
        }
    }
}

/// One send step of an interleaving: a value entering one of the two
/// directions.
pub enum SendEvent<T1, T2> {
    FromA(T1),
    FromB(T2),
}

/// The state after the sends of `es`, applied oldest first, however the two
/// endpoints' sends interleave.
pub open spec fn apply_sends<T1, T2>(
    s: PairModel<T1, T2>,
    es: Seq<SendEvent<T1, T2>>,
) -> PairModel<T1, T2>
    decreases es.len(),
{
    if es.len() == 0 {
        s
    } else {
        let stepped = match es.first() {
            SendEvent::FromA(v) => s.send_a(v),
            SendEvent::FromB(v) => s.send_b(v),
        };
        apply_sends(stepped, es.drop_first())
    }
}

/// The values of `es` that `a` sent, in their own order.
pub open spec fn values_from_a<T1, T2>(es: Seq<SendEvent<T1, T2>>) -> Seq<T1>
    decreases es.len(),
{
    if es.len() == 0 {
        Seq::empty()
    } else {
        match es.first() {
            SendEvent::FromA(v) => seq![v] + values_from_a(es.drop_first()),
            SendEvent::FromB(_) => values_from_a(es.drop_first()),
        }
    }
}

/// The values of `es` that `b` sent, in their own order.
pub open spec fn values_from_b<T1, T2>(es: Seq<SendEvent<T1, T2>>) -> Seq<T2>
    decreases es.len(),
{
    if es.len() == 0 {
        Seq::empty()
    } else {
        match es.first() {
            SendEvent::FromA(_) => values_from_b(es.drop_first()),
            SendEvent::FromB(v) => seq![v] + values_from_b(es.drop_first()),
        }
    }
}

/// Direction independence: however sends on the two endpoints interleave,
/// each direction ends up holding exactly the values sent on it, in their own
/// send order. No value is ever observed on the wrong direction, and sends on
/// one direction never reorder the other.
pub proof fn lemma_directions_independent<T1, T2>(
    s: PairModel<T1, T2>,
    es: Seq<SendEvent<T1, T2>>,
)
    ensures
        apply_sends(s, es).a_to_b == s.a_to_b + values_from_a(es),
        apply_sends(s, es).b_to_a == s.b_to_a + values_from_b(es),
    decreases es.len(),
{
    if es.len() == 0 {
        assert(s.a_to_b + values_from_a(es) =~= s.a_to_b);
        assert(s.b_to_a + values_from_b(es) =~= s.b_to_a);
    } else {
        let rest = es.drop_first();
        match es.first() {
            SendEvent::FromA(v) => {
                lemma_directions_independent(s.send_a(v), rest);
                assert(s.a_to_b.push(v) + values_from_a(rest) =~= s.a_to_b + values_from_a(es));
            },
            SendEvent::FromB(v) => {
                lemma_directions_independent(s.send_b(v), rest);
                assert(s.b_to_a.push(v) + values_from_b(rest) =~= s.b_to_a + values_from_b(es));
            },
        }
    }
}

/// Sending on `a` appends to its own direction and leaves the other one
/// untouched, whatever was pending before.
pub proof fn lemma_send_all_a_appends<T1, T2>(s: PairModel<T1, T2>, vs: Seq<T1>)
    ensures
        s.send_all_a(vs).a_to_b == s.a_to_b + vs,
        s.send_all_a(vs).b_to_a == s.b_to_a,
    decreases vs.len(),
{
    if vs.len() == 0 {
        assert(s.a_to_b + vs =~= s.a_to_b);
    } else {
        lemma_send_all_a_appends(s.send_a(vs.first()), vs.drop_first());
        assert(s.a_to_b.push(vs.first()) + vs.drop_first() =~= s.a_to_b + vs);
    }
}

/// Sending on `b` appends to its own direction and leaves the other one
/// untouched, whatever was pending before.
pub proof fn lemma_send_all_b_appends<T1, T2>(s: PairModel<T1, T2>, vs: Seq<T2>)
    ensures
        s.send_all_b(vs).b_to_a == s.b_to_a + vs,
        s.send_all_b(vs).a_to_b == s.a_to_b,
    decreases vs.len(),
{
    if vs.len() == 0 {
        assert(s.b_to_a + vs =~= s.b_to_a);
    } else {
        lemma_send_all_b_appends(s.send_b(vs.first()), vs.drop_first());
        assert(s.b_to_a.push(vs.first()) + vs.drop_first() =~= s.b_to_a + vs);
    }
}

/// Receiving on `b` until its direction is empty yields exactly the pending
/// values of that direction, oldest first: no reordering, no loss, no
/// duplication.
pub proof fn lemma_recv_all_b_drains<T1, T2>(s: PairModel<T1, T2>)
    ensures
        s.recv_all_b() == s.a_to_b,
    decreases s.a_to_b.len(),
{
    if s.b_can_recv() {
        lemma_recv_all_b_drains(s.recv_b().1);
        assert(seq![s.a_to_b.first()] + s.a_to_b.drop_first() =~= s.a_to_b);
    } else {
        assert(s.recv_all_b() =~= s.a_to_b);
    }
}

/// Receiving on `a` until its direction is empty yields exactly the pending
/// values of that direction, oldest first.
pub proof fn lemma_recv_all_a_drains<T1, T2>(s: PairModel<T1, T2>)
    ensures
        s.recv_all_a() == s.b_to_a,
    decreases s.b_to_a.len(),
{
    if s.a_can_recv() {
        lemma_recv_all_a_drains(s.recv_a().1);
        assert(seq![s.b_to_a.first()] + s.b_to_a.drop_first() =~= s.b_to_a);
    } else {
        assert(s.recv_all_a() =~= s.b_to_a);
    }
}

/// Disconnected send: which way `a.send(v)` goes is decided by the peer's
/// existence alone, never by what is queued. While `b` lives the value is
/// enqueued behind the pending ones; once `b` is destroyed the call fails,
/// the error carries exactly `v` back, and the state is unchanged: the value
/// is neither enqueued nor silently dropped.
pub proof fn lemma_send_a_decided_by_peer<T1, T2>(s: PairModel<T1, T2>, v: T1)
    ensures
        s.b_live ==> s.send_a_outcome(v) == (Ok::<(), T1>(()), s.send_a(v)),
        !s.b_live ==> s.send_a_outcome(v) == (Err::<(), T1>(v), s),
{
}

/// Disconnected send, the other direction: `b.send(v)` is decided by `a`'s
/// existence alone, and a failure carries exactly `v` back, changing nothing.
pub proof fn lemma_send_b_decided_by_peer<T1, T2>(s: PairModel<T1, T2>, v: T2)
    ensures
        s.a_live ==> s.send_b_outcome(v) == (Ok::<(), T2>(()), s.send_b(v)),
        !s.a_live ==> s.send_b_outcome(v) == (Err::<(), T2>(v), s),
{
}

/// Disconnected recv: once endpoint `a` is destroyed and the direction it fed
/// is drained, `b.recv` no longer suspends; it returns the disconnection
/// error, leaves the state unchanged, and therefore every subsequent `b.recv`
/// fails the same way: disconnection is permanent and deterministic.
pub proof fn lemma_recv_b_disconnected<T1, T2>(s: PairModel<T1, T2>)
    requires
        !s.a_live,
        s.a_to_b.len() == 0,
    ensures
        s.recv_b_returns(),
        s.recv_b_outcome() == (Err::<T1, ()>(()), s),
        s.recv_b_outcome().1.recv_b_outcome() == (Err::<T1, ()>(()), s),
{
}

/// Disconnected recv, the other direction: once endpoint `b` is destroyed and
/// its direction is drained, `a.recv` fails, permanently.
pub proof fn lemma_recv_a_disconnected<T1, T2>(s: PairModel<T1, T2>)
    requires
        !s.b_live,
        s.b_to_a.len() == 0,
    ensures
        s.recv_a_returns(),
        s.recv_a_outcome() == (Err::<T2, ()>(()), s),
        s.recv_a_outcome().1.recv_a_outcome() == (Err::<T2, ()>(()), s),
{
}

/// Attempted sends on `a`, delivered or refused, never touch the other
/// direction, nor either endpoint's existence.
pub proof fn lemma_try_send_all_a_preserves<T1, T2>(s: PairModel<T1, T2>, vs: Seq<T1>)
    ensures
        s.try_send_all_a(vs).b_to_a == s.b_to_a,
        s.try_send_all_a(vs).a_live == s.a_live,
        s.try_send_all_a(vs).b_live == s.b_live,
    decreases vs.len(),
{
    if vs.len() != 0 {
        lemma_try_send_all_a_preserves(s.send_a_outcome(vs.first()).1, vs.drop_first());
    }
}

/// The disconnect run: from a fresh pair, endpoint `b` is destroyed without
/// reading; `a` then attempts any number of sends, each returning its own
/// outcome, and calls `recv`. That `recv` returns the disconnection error:
/// nothing was ever sent towards `a`, and `b`'s sending handle is gone.
pub proof fn lemma_recv_after_peer_dropped<T1, T2>(vs: Seq<T1>)
    ensures
        PairModel::<T1, T2>::empty().drop_b().try_send_all_a(vs).recv_a_returns(),
        PairModel::<T1, T2>::empty().drop_b().try_send_all_a(vs).recv_a_outcome().0 == Err::<
            T2,
            (),
        >(()),
{
    lemma_try_send_all_a_preserves(PairModel::<T1, T2>::empty().drop_b(), vs);
}

/// Round trip, one direction: for every sequence of values `vs` sent via
/// `a.send` into a fresh pair, receiving on `b` yields exactly `vs`, in send
/// order, and nothing ever appears on the opposite direction.
pub proof fn lemma_round_trip_a_to_b<T1, T2>(vs: Seq<T1>)
    ensures
        PairModel::<T1, T2>::empty().send_all_a(vs).recv_all_b() == vs,
        PairModel::<T1, T2>::empty().send_all_a(vs).recv_all_a() == Seq::<T2>::empty(),
{
    let s = PairModel::<T1, T2>::empty().send_all_a(vs);
    lemma_send_all_a_appends(PairModel::<T1, T2>::empty(), vs);
    assert(Seq::<T1>::empty() + vs =~= vs);
    lemma_recv_all_b_drains(s);
    lemma_recv_all_a_drains(s);
}

/// Round trip, the other direction: for every sequence of values `vs` sent
/// via `b.send` into a fresh pair, receiving on `a` yields exactly `vs`, in
/// send order, and nothing ever appears on the opposite direction.
pub proof fn lemma_round_trip_b_to_a<T1, T2>(vs: Seq<T2>)
    ensures
        PairModel::<T1, T2>::empty().send_all_b(vs).recv_all_a() == vs,
        PairModel::<T1, T2>::empty().send_all_b(vs).recv_all_b() == Seq::<T1>::empty(),
{
    let s = PairModel::<T1, T2>::empty().send_all_b(vs);
    lemma_send_all_b_appends(PairModel::<T1, T2>::empty(), vs);
    assert(Seq::<T2>::empty() + vs =~= vs);
    lemma_recv_all_a_drains(s);
    lemma_recv_all_b_drains(s);
}

} // verus!
