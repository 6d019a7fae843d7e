//! One forwarded TCP connection, from the accepted client socket to the
//! outbound socket and back, and the accept loop that hands out connections.
//!
//! A session first connects to the remote endpoint. If that fails it closes the
//! client socket at once. Otherwise it runs both copy directions and closes both
//! sockets only once both have finished, so that a reply still in flight when
//! the client half-closes is not cut off. The first failure of a direction is the
//! one the session reports.

use crate::pump::PumpEnd;
use vstd::prelude::*;

verus! {

/// A copy direction of a session, named by where its bytes come from.
pub enum Direction {
    ClientToRemote,
    RemoteToClient,
}

/// Where a session stands.
pub enum SessionPhase {
    /// Connecting to the remote endpoint.
    Connecting,
    /// Both copy directions have been started; not both have finished.
    Relaying,
    /// Both sockets are to be closed; nothing more happens.
    Closed,
}

/// What the caller does next for a session.
pub enum SessionAction<E> {
    /// Start both copy directions.
    StartRelay,
    /// Wait for the direction that is still running.
    Wait,
    /// Close both sockets and report this outcome.
    Close(Result<(), E>),
}

/// What the accept loop does with the result of one accept.
pub enum AcceptAction<C, E> {
    /// Hand the connection to a session task of its own.
    Dispatch(C),
    /// Report the error and accept the next connection.
    Report(E),
}

/// The state of one session.
pub struct TcpSession<E> {
    pub phase: SessionPhase,
    pub client_to_remote_done: bool,
    pub remote_to_client_done: bool,
    /// The first failure of a direction, until the session reports it.
    pub fault: Option<E>,
}

/// The other direction.
pub open spec fn opposite(d: Direction) -> Direction {
    match d {
        Direction::ClientToRemote => Direction::RemoteToClient,
        Direction::RemoteToClient => Direction::ClientToRemote,
    }
}

/// What a session reports when its directions ended with `first`, then `second`:
/// the earlier failure, or success when neither failed.
pub open spec fn outcome_of<E>(first: PumpEnd<E>, second: PumpEnd<E>) -> Result<(), E> {
    match first {
        PumpEnd::Failed(e) => Err(e),
        PumpEnd::Drained => match second {
            PumpEnd::Failed(e) => Err(e),
            PumpEnd::Drained => Ok(()),
        },
    }
}

/// What the accept loop does with the result of one accept.
pub open spec fn accept_step<C, E>(r: Result<C, E>) -> AcceptAction<C, E> {
    match r {
        Ok(c) => AcceptAction::Dispatch(c),
        Err(e) => AcceptAction::Report(e),
    }
}

/// Both sockets of a session are closed once both directions have finished,
/// whichever finished first and however each ended: the first end only makes the
/// session wait, the second closes it, and the earlier failure is reported.
pub proof fn lemma_closes_after_both_directions<E>(
    first: Direction,
    end1: PumpEnd<E>,
    end2: PumpEnd<E>,
)
    ensures
        ({
            let relaying = TcpSession::<E>::initial().connect_step(Ok(())).0;
            let (after1, a1) = relaying.finish_step(first, end1);
            let (after2, a2) = after1.finish_step(opposite(first), end2);
            &&& a1 == SessionAction::<E>::Wait
            &&& after1.phase is Relaying
            &&& !after1.is_done(opposite(first))
            &&& a2 == SessionAction::Close(outcome_of(end1, end2))
            &&& after2.phase is Closed
        }),
{
}

/// A session whose outbound connect fails closes the client socket at once and
/// reports that error.
pub proof fn lemma_closes_on_connect_failure<E>(e: E)
    ensures
        TcpSession::<E>::initial().connect_step(Err(e)).1 == SessionAction::<E>::Close(Err(e)),
        TcpSession::<E>::initial().connect_step(Err(e)).0.phase is Closed,
{
}

/// A failed outbound connect stays inside its session: the accept loop still
/// hands the next client to a session of its own, which starts relaying once
/// its connect succeeds.
pub proof fn lemma_failed_connect_isolated<C, E>(e: E, next: C)
    ensures
        TcpSession::<E>::initial().connect_step(Err(e)).1 == SessionAction::<E>::Close(Err(e)),
        accept_step::<C, E>(Ok(next)) == AcceptAction::<C, E>::Dispatch(next),
        TcpSession::<E>::initial().connect_step(Ok(())).1 == SessionAction::<E>::StartRelay,
{
}

impl<E> TcpSession<E> {
    /// A session that has just accepted its client.
    pub open spec fn initial() -> TcpSession<E> {
        TcpSession {
            phase: SessionPhase::Connecting,
            client_to_remote_done: false,
            remote_to_client_done: false,
            fault: None,
        }
    }

    /// No direction runs before the connect, and the session is relaying exactly
    /// while not both directions have finished; a failure is held only while
    /// relaying.
    pub open spec fn wf(self) -> bool {
        match self.phase {
            SessionPhase::Connecting => !self.client_to_remote_done && !self.remote_to_client_done
                && self.fault is None,
            SessionPhase::Relaying => !(self.client_to_remote_done && self.remote_to_client_done),
            SessionPhase::Closed => self.fault is None,
        }
    }

    pub open spec fn is_done(self, d: Direction) -> bool {
        match d {
            Direction::ClientToRemote => self.client_to_remote_done,
            Direction::RemoteToClient => self.remote_to_client_done,
        }
    }

    /// The state and action that the outcome of the outbound connect gives.
    pub open spec fn connect_step(self, r: Result<(), E>) -> (TcpSession<E>, SessionAction<E>) {
        match r {
            Ok(()) => (TcpSession { phase: SessionPhase::Relaying, ..self }, SessionAction::StartRelay),
            Err(e) => (TcpSession { phase: SessionPhase::Closed, ..self }, SessionAction::Close(Err(e))),
        }
    }

    /// The state and action that the end of direction `d` gives.
    pub open spec fn finish_step(self, d: Direction, end: PumpEnd<E>) -> (
        TcpSession<E>,
        SessionAction<E>,
    ) {
        let c2r = self.client_to_remote_done || d is ClientToRemote;
        let r2c = self.remote_to_client_done || d is RemoteToClient;
        let fault = match (self.fault, end) {
            (None, PumpEnd::Failed(e)) => Some(e),
            _ => self.fault,
        };
        if c2r && r2c {
            (
                TcpSession {
                    phase: SessionPhase::Closed,
                    client_to_remote_done: true,
                    remote_to_client_done: true,
                    fault: None,
                },
                SessionAction::Close(
                    match fault {
                        Some(e) => Err(e),
                        None => Ok(()),
                    },
                ),
            )
        } else {
            (
                TcpSession {
                    phase: SessionPhase::Relaying,
                    client_to_remote_done: c2r,
                    remote_to_client_done: r2c,
                    fault,
                },
                SessionAction::Wait,
            )
        }
    }

    /// A session for a client that has just been accepted.
    pub fn new() -> (r: Self)
        ensures
            r == Self::initial(),
            r.wf(),
    {
        TcpSession {
            phase: SessionPhase::Connecting,
            client_to_remote_done: false,
            remote_to_client_done: false,
            fault: None,
        }
    }

    /// Takes the outcome of the outbound connect: relay on success, otherwise close
    /// the client socket and report the error. There is no retry.
    pub fn on_connect(&mut self, r: Result<(), E>) -> (a: SessionAction<E>)
        requires
            old(self).phase is Connecting,
        ensures
            (*final(self), a) == old(self).connect_step(r),
            old(self).wf() ==> final(self).wf(),
    {
        match r {
            Ok(()) => {
                self.phase = SessionPhase::Relaying;
                SessionAction::StartRelay
            },
            Err(e) => {
                self.phase = SessionPhase::Closed;
                SessionAction::Close(Err(e))
            },
        }
    }

    /// Takes the end of a copy direction: wait while the other one runs, close
    /// both sockets once both have finished.
    pub fn on_direction_finished(&mut self, d: Direction, end: PumpEnd<E>) -> (a: SessionAction<E>)
        requires
            old(self).phase is Relaying,
            !old(self).is_done(d),
        ensures
            (*final(self), a) == old(self).finish_step(d, end),
            old(self).wf() ==> final(self).wf(),
    {
        match d {
            Direction::ClientToRemote => self.client_to_remote_done = true,
            Direction::RemoteToClient => self.remote_to_client_done = true,
        }
        if self.fault.is_none() {
            match end {
                PumpEnd::Failed(e) => self.fault = Some(e),
                PumpEnd::Drained => {},
            }
        }
        if self.client_to_remote_done && self.remote_to_client_done {
            self.phase = SessionPhase::Closed;
            match self.fault.take() {
                Some(e) => SessionAction::Close(Err(e)),
                None => SessionAction::Close(Ok(())),
            }
        } else {
            SessionAction::Wait
        }
    }
}

/// The accept loop's decision: an accepted connection goes to a session of its
/// own; an accept error is reported and the loop goes on.
pub fn on_accept<C, E>(r: Result<C, E>) -> (a: AcceptAction<C, E>)
    ensures
        a == accept_step(r),
{
    match r {
        Ok(c) => AcceptAction::Dispatch(c),
        Err(e) => AcceptAction::Report(e),
    }
}

} // verus!
