//! The UDP relay: a datagram from a client goes, unchanged, to the remote
//! endpoint through one outbound socket that stays connected to it; a reply that
//! is already waiting on that socket goes back, unchanged, to the client that
//! sent the datagram. The relay never waits for a reply: one that arrives after
//! the next client datagram is taken is not delivered.
//!
//! There is one mapping at a time. The client address is recorded when its
//! datagram arrives and is forgotten at the end of that exchange.

use vstd::prelude::*;

verus! {

/// Where the relay's loop stands. `A` is a client address.
pub enum UdpPhase<A> {
    /// Waiting for the next datagram from a client.
    AwaitDatagram,
    /// Sending a client's datagram to the remote endpoint.
    Sending(A),
    /// Checking, without waiting, for a reply from the remote endpoint.
    Polling(A),
    /// Sending a reply back to a client.
    Replying,
}

/// What came of the check for a reply.
pub enum PollOutcome<E> {
    /// A reply from the remote endpoint.
    Reply(Vec<u8>),
    /// No reply was waiting: not an error.
    WouldBlock,
    /// The receive failed.
    Failed(E),
}

/// What the caller does next.
pub enum UdpAction<A, E> {
    /// Send these bytes, unchanged, through the outbound socket.
    SendToRemote(Vec<u8>),
    /// Check the outbound socket for a reply, without waiting.
    PollReply,
    /// Send these bytes, unchanged, from the listening socket to this client.
    ReplyTo(A, Vec<u8>),
    /// Report this error, then wait for the next datagram.
    Report(E),
    /// Wait for the next datagram.
    NextDatagram,
}

/// The state of the relay's loop.
pub struct UdpRelay<A> {
    pub phase: UdpPhase<A>,
}

/// A reply that is waiting when the relay checks goes back to the client whose
/// datagram was just forwarded, byte for byte as the remote endpoint sent it,
/// before the relay takes another datagram; the datagram itself reached the
/// remote endpoint unchanged.
pub proof fn lemma_immediate_reply_returns_to_sender<A, E>(client: A, payload: Vec<u8>, reply: Vec<u8>)
    ensures
        ({
            let (s1, a1) = UdpRelay::<A>::initial().datagram_step::<E>(client, payload);
            let (s2, a2) = s1.sent_step::<E>(Ok(()));
            let (s3, a3) = s2.poll_step::<E>(PollOutcome::Reply(reply));
            let (s4, a4) = s3.replied_step::<E>(Ok(()));
            &&& a1 == UdpAction::<A, E>::SendToRemote(payload)
            &&& a2 == UdpAction::<A, E>::PollReply
            &&& a3 == UdpAction::<A, E>::ReplyTo(client, reply)
            &&& a4 == UdpAction::<A, E>::NextDatagram
            &&& s4 == UdpRelay::<A>::initial()
        }),
{
}

/// When no reply is waiting at the check, the exchange ends with no reply and
/// no error, and the relay waits for the next datagram; a reply that the remote
/// endpoint sends afterwards goes to the client of the next datagram, never to
/// the first one.
pub proof fn lemma_late_reply_dropped<A, E>(
    first: A,
    first_payload: Vec<u8>,
    second: A,
    second_payload: Vec<u8>,
    reply: Vec<u8>,
)
    ensures
        ({
            let (s1, a1) = UdpRelay::<A>::initial().datagram_step::<E>(first, first_payload);
            let (s2, a2) = s1.sent_step::<E>(Ok(()));
            let (s3, a3) = s2.poll_step::<E>(PollOutcome::WouldBlock);
            let (s4, a4) = s3.datagram_step::<E>(second, second_payload);
            let (s5, a5) = s4.sent_step::<E>(Ok(()));
            let (s6, a6) = s5.poll_step::<E>(PollOutcome::Reply(reply));
            &&& a3 == UdpAction::<A, E>::NextDatagram
            &&& s3 == UdpRelay::<A>::initial()
            &&& a4 == UdpAction::<A, E>::SendToRemote(second_payload)
            &&& a6 == UdpAction::<A, E>::ReplyTo(second, reply)
        }),
{
}

impl<A> UdpRelay<A> {
    pub open spec fn initial() -> UdpRelay<A> {
        UdpRelay { phase: UdpPhase::AwaitDatagram }
    }

    /// A datagram `payload` from client `from` arrived.
    pub open spec fn datagram_step<E>(self, from: A, payload: Vec<u8>) -> (UdpRelay<A>, UdpAction<A, E>) {
        (UdpRelay { phase: UdpPhase::Sending(from) }, UdpAction::SendToRemote(payload))
    }

    /// The send to the remote endpoint finished with `r`.
    pub open spec fn sent_step<E>(self, r: Result<(), E>) -> (UdpRelay<A>, UdpAction<A, E>) {
        match (self.phase, r) {
            (UdpPhase::Sending(client), Ok(())) => (UdpRelay { phase: UdpPhase::Polling(client) }, UdpAction::PollReply),
            (_, Err(e)) => (UdpRelay::initial(), UdpAction::Report(e)),
            _ => (UdpRelay::initial(), UdpAction::NextDatagram),
        }
    }

    /// The check for a reply gave `r`.
    pub open spec fn poll_step<E>(self, r: PollOutcome<E>) -> (UdpRelay<A>, UdpAction<A, E>) {
        match (self.phase, r) {
            (UdpPhase::Polling(client), PollOutcome::Reply(data)) => (UdpRelay { phase: UdpPhase::Replying }, UdpAction::ReplyTo(client, data)),
            (_, PollOutcome::Failed(e)) => (UdpRelay::initial(), UdpAction::Report(e)),
            _ => (UdpRelay::initial(), UdpAction::NextDatagram),
        }
    }

    /// The reply to the client was sent with outcome `r`.
    pub open spec fn replied_step<E>(self, r: Result<(), E>) -> (UdpRelay<A>, UdpAction<A, E>) {
        match r {
            Ok(()) => (UdpRelay::initial(), UdpAction::NextDatagram),
            Err(e) => (UdpRelay::initial(), UdpAction::Report(e)),
        }
    }

    /// A relay waiting for its first datagram.
    pub fn new() -> (r: Self)
        ensures
            r == Self::initial(),
    {
        UdpRelay { phase: UdpPhase::AwaitDatagram }
    }

    /// Takes a datagram from a client: it goes, unchanged, to the remote endpoint,
    /// and the client is recorded as the one a reply goes to.
    pub fn on_datagram<E>(&mut self, from: A, payload: Vec<u8>) -> (a: UdpAction<A, E>)
        requires
            old(self).phase is AwaitDatagram,
        ensures
            (*final(self), a) == old(self).datagram_step::<E>(from, payload),
    {
        self.phase = UdpPhase::Sending(from);
        UdpAction::SendToRemote(payload)
    }

    /// Takes the outcome of the send to the remote endpoint: on success check for
    /// a reply, otherwise report the error and go on.
    pub fn on_sent<E>(&mut self, r: Result<(), E>) -> (a: UdpAction<A, E>)
        requires
            old(self).phase is Sending,
        ensures
            (*final(self), a) == old(self).sent_step(r),
    {
        let mut phase = UdpPhase::AwaitDatagram;
        std::mem::swap(&mut self.phase, &mut phase);
        match r {
            Ok(()) => match phase {
                UdpPhase::Sending(client) => {
                    self.phase = UdpPhase::Polling(client);
                    UdpAction::PollReply
                },
                _ => UdpAction::NextDatagram,
            },
            Err(e) => UdpAction::Report(e),
        }
    }

    /// Takes what the check for a reply found: a reply goes, unchanged, to the
    /// recorded client; no reply means waiting for the next datagram; a failure is
    /// reported.
    pub fn on_poll<E>(&mut self, r: PollOutcome<E>) -> (a: UdpAction<A, E>)
        requires
            old(self).phase is Polling,
        ensures
            (*final(self), a) == old(self).poll_step(r),
    {
        let mut phase = UdpPhase::AwaitDatagram;
        std::mem::swap(&mut self.phase, &mut phase);
        match r {
            PollOutcome::Reply(data) => match phase {
                UdpPhase::Polling(client) => {
                    self.phase = UdpPhase::Replying;
                    UdpAction::ReplyTo(client, data)
                },
                _ => UdpAction::NextDatagram,
            },
            PollOutcome::WouldBlock => UdpAction::NextDatagram,
            PollOutcome::Failed(e) => UdpAction::Report(e),
        }
    }

    /// Takes the outcome of the reply to the client; either way the loop goes on.
    pub fn on_replied<E>(&mut self, r: Result<(), E>) -> (a: UdpAction<A, E>)
        requires
            old(self).phase is Replying,
        ensures
            (*final(self), a) == old(self).replied_step(r),
    {
        self.phase = UdpPhase::AwaitDatagram;
        match r {
            Ok(()) => UdpAction::NextDatagram,
            Err(e) => UdpAction::Report(e),
        }
    }
}

} // verus!
