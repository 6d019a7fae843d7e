//! One direction of a TCP session: bytes read from a source socket are written,
//! in order and unchanged, to a destination socket, until the source ends or
//! the copy fails; then the destination's write side is shut down.

use vstd::prelude::*;

verus! {

/// What came of the last operation of a copy direction.
pub enum PumpEvent<E> {
    /// Bytes read from the source. An empty chunk is end of stream, as a read of
    /// zero bytes reports it.
    Received(Vec<u8>),
    /// Reading the source failed.
    ReadFailed(E),
    /// Writing the last forwarded chunk to the destination failed.
    WriteFailed(E),
}

/// What the caller does next for a copy direction.
pub enum PumpAction {
    /// Write these bytes, unchanged, to the destination, then read the source again.
    Forward(Vec<u8>),
    /// Shut down the destination's write side; this direction is finished.
    HalfClose,
}

/// How a finished copy direction ended.
pub enum PumpEnd<E> {
    /// The source reached end of stream.
    Drained,
    /// Reading or writing failed with this error.
    Failed(E),
}

/// The state of one copy direction.
pub struct Pump<E> {
    /// Bytes forwarded so far, saturating at `u64::MAX`.
    pub forwarded: u64,
    /// `None` while the direction runs; how it ended once it has.
    pub end: Option<PumpEnd<E>>,
}

/// `a + n`, saturating at `u64::MAX`.
pub open spec fn saturating_total(a: u64, n: nat) -> u64 {
    if a + n > u64::MAX {
        u64::MAX
    } else {
        (a + n) as u64
    }
}

/// An event that finishes a direction.
pub open spec fn is_final_event<E>(ev: PumpEvent<E>) -> bool {
    match ev {
        PumpEvent::Received(data) => data@.len() == 0,
        _ => true,
    }
}

/// The end that a finishing event gives.
pub open spec fn end_of<E>(ev: PumpEvent<E>) -> PumpEnd<E> {
    match ev {
        PumpEvent::ReadFailed(e) => PumpEnd::Failed(e),
        PumpEvent::WriteFailed(e) => PumpEnd::Failed(e),
        PumpEvent::Received(_) => PumpEnd::Drained,
    }
}

/// The bytes that a sequence of events reads from the source before the direction
/// finishes.
pub open spec fn stream_bytes<E>(evs: Seq<PumpEvent<E>>) -> Seq<u8>
    decreases evs.len(),
{
    if evs.len() == 0 || is_final_event(evs[0]) {
        Seq::empty()
    } else {
        match evs[0] {
            PumpEvent::Received(data) => data@ + stream_bytes(evs.drop_first()),
            _ => Seq::empty(),
        }
    }
}

/// The bytes that a sequence of actions writes to the destination.
pub open spec fn forwarded_bytes(acts: Seq<PumpAction>) -> Seq<u8>
    decreases acts.len(),
{
    if acts.len() == 0 {
        Seq::empty()
    } else {
        match acts[0] {
            PumpAction::Forward(data) => data@ + forwarded_bytes(acts.drop_first()),
            PumpAction::HalfClose => forwarded_bytes(acts.drop_first()),
        }
    }
}

/// Every byte read from the source is written to the destination, in the order
/// read and unchanged, and the counter says how many (saturating): for any
/// sequence of events on an open direction, the forwarded chunks, joined, are
/// exactly the bytes read before the direction finished.
pub proof fn lemma_forwards_stream_in_order<E>(p: Pump<E>, evs: Seq<PumpEvent<E>>)
    requires
        p.is_open(),
    ensures
        forwarded_bytes(p.run(evs).1) == stream_bytes(evs),
        p.run(evs).0.forwarded == saturating_total(p.forwarded, stream_bytes(evs).len()),
    decreases evs.len(),
{
    if evs.len() == 0 {
    } else {
        let (next, act) = p.step(evs[0]);
        let (last, rest) = next.run(evs.drop_first());
        assert((seq![act] + rest).drop_first() =~= rest);
        if is_final_event(evs[0]) {
            assert(rest.len() == 0);
            assert(p.run(evs).1 =~= seq![act]);
            assert(seq![act].drop_first() =~= Seq::<PumpAction>::empty());
            assert(forwarded_bytes(seq![act]) == forwarded_bytes(Seq::<PumpAction>::empty()));
        } else {
            lemma_forwards_stream_in_order(next, evs.drop_first());
            let data = evs[0]->Received_0;
            assert(forwarded_bytes(seq![act] + rest) == data@ + forwarded_bytes(rest));
            assert(stream_bytes(evs) == data@ + stream_bytes(evs.drop_first()));
        }
    }
}

/// A direction finishes at its first finishing event (end of stream or a failure)
/// and no sooner: every event before it forwards a chunk, and that event shuts
/// down the destination's write side, once, as the last action, recording how
/// the direction ended.
pub proof fn lemma_half_close_on_end<E>(p: Pump<E>, evs: Seq<PumpEvent<E>>, k: int)
    requires
        p.is_open(),
        0 <= k < evs.len(),
        is_final_event(evs[k]),
        forall|i: int| 0 <= i < k ==> !is_final_event(#[trigger] evs[i]),
    ensures
        p.run(evs).1.len() == k + 1,
        p.run(evs).1[k] == PumpAction::HalfClose,
        forall|i: int| 0 <= i < k ==> p.run(evs).1[i] is Forward,
        p.run(evs).0.end == Some(end_of(evs[k])),
    decreases k,
{
    let (next, act) = p.step(evs[0]);
    let (last, rest) = next.run(evs.drop_first());
    if k > 0 {
        assert(!is_final_event(evs[0]));
        assert forall|i: int| 0 <= i < k - 1 implies !is_final_event(#[trigger] evs.drop_first()[i]) by {
            assert(evs.drop_first()[i] == evs[i + 1]);
        }
        lemma_half_close_on_end(next, evs.drop_first(), k - 1);
        assert forall|i: int| 0 <= i < k implies p.run(evs).1[i] is Forward by {
            if i > 0 {
                assert(p.run(evs).1[i] == rest[i - 1]);
            }
        }
    }
}

impl<E> Pump<E> {
    pub open spec fn is_open(&self) -> bool {
        self.end is None
    }

    /// The state and action that one event gives on an open direction.
    pub open spec fn step(self, ev: PumpEvent<E>) -> (Pump<E>, PumpAction) {
        if is_final_event(ev) {
            (Pump { forwarded: self.forwarded, end: Some(end_of(ev)) }, PumpAction::HalfClose)
        } else {
            match ev {
                PumpEvent::Received(data) => (
                    Pump { forwarded: saturating_total(self.forwarded, data@.len()), end: None },
                    PumpAction::Forward(data),
                ),
                _ => (self, PumpAction::HalfClose),
            }
        }
    }

    /// The state and actions that a sequence of events gives; events after the
    /// direction has finished are not taken.
    pub open spec fn run(self, evs: Seq<PumpEvent<E>>) -> (Pump<E>, Seq<PumpAction>)
        decreases evs.len(),
    {
        if evs.len() == 0 || !self.is_open() {
            (self, Seq::empty())
        } else {
            let (next, act) = self.step(evs[0]);
            let (last, rest) = next.run(evs.drop_first());
            (last, seq![act] + rest)
        }
    }

    /// A direction that has forwarded nothing yet.
    pub fn new() -> (r: Self)
        ensures
            r.is_open(),
            r.forwarded == 0,
    {
        Pump { forwarded: 0, end: None }
    }

    /// Takes what came of the last operation and says what to do next.
    pub fn on_event(&mut self, ev: PumpEvent<E>) -> (a: PumpAction)
        requires
            old(self).is_open(),
        ensures
            (*final(self), a) == old(self).step(ev),
    {
        match ev {
            PumpEvent::Received(data) => {
                if data.len() == 0 {
                    self.end = Some(PumpEnd::Drained);
                    PumpAction::HalfClose
                } else {
                    self.forwarded = self.forwarded.saturating_add(data.len() as u64);
                    PumpAction::Forward(data)
                }
            },
            PumpEvent::ReadFailed(e) => {
                self.end = Some(PumpEnd::Failed(e));
                PumpAction::HalfClose
            },
            PumpEvent::WriteFailed(e) => {
                self.end = Some(PumpEnd::Failed(e));
                PumpAction::HalfClose
            },
        }
    }

    /// Whether this direction has finished.
    pub fn is_finished(&self) -> (r: bool)
        ensures
            r == !self.is_open(),
    {
        self.end.is_some()
    }

    /// How a finished direction ended.
    pub fn into_end(self) -> (r: PumpEnd<E>)
        requires
            !self.is_open(),
        ensures
            self.end == Some(r),
    {
        self.end.unwrap()
    }
}

} // verus!
