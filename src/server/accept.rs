//! The accept loop's decisions, and the registry of admitted clients.
//!
//! The loop itself runs where the listener and the connections are: it polls its
//! cancellation token, tries to accept, runs the handshake, and hands each outcome
//! here to learn what to do next.
use vstd::prelude::*;

use crate::cancellation::CancellationTokenError;
use crate::protocol::error::HandshakeError;
use crate::protocol::server_handshake::Handshake;

verus! {

/// How long the loop sleeps when no connection is waiting, in milliseconds.
pub const POLL_INTERVAL_MS: u64 = 250;

/// The failures of accepting a connection that the loop tells apart.
#[derive(Clone, Copy, Debug, PartialEq, Eq)]
pub enum AcceptErrorKind {
    /// No connection is waiting.
    WouldBlock,
    ConnectionAborted,
    ConnectionRefused,
    ConnectionReset,
    Interrupted,
    BrokenPipe,
    TimedOut,
    /// Any other failure: the listener itself is in trouble.
    Other,
}

/// A failure that concerns only the peer that tried to connect.
pub open spec fn is_transient(kind: AcceptErrorKind) -> bool {
    match kind {
        AcceptErrorKind::ConnectionAborted
        | AcceptErrorKind::ConnectionRefused
        | AcceptErrorKind::ConnectionReset
        | AcceptErrorKind::Interrupted
        | AcceptErrorKind::BrokenPipe
        | AcceptErrorKind::TimedOut => true,
        _ => false,
    }
}

/// Why the loop stopped with an error.
#[derive(Debug, PartialEq, Eq)]
pub enum AcceptLoopError {
    /// The cancellation token could not be polled.
    Cancellation(CancellationTokenError),
    /// Accepting failed in a way that is not the peer's.
    Accept(AcceptErrorKind),
}

/// What the loop learned at its last step.
#[derive(Debug)]
pub enum LoopEvent {
    /// The cancellation token was polled.
    Polled(Result<bool, CancellationTokenError>),
    /// Accepting a connection failed.
    AcceptFailed(AcceptErrorKind),
    /// A connection was accepted, and its handshake ended as given.
    Handshaken(Result<Handshake, HandshakeError>),
}

/// What the loop does next.
#[derive(Debug, PartialEq, Eq)]
pub enum LoopAction {
    /// Try to accept a connection.
    Accept,
    /// Sleep this many milliseconds, then poll the token again.
    Sleep(u64),
    /// Poll the token again.
    Continue,
    /// Stop: cancellation was requested.
    Finish,
    /// Stop, with this error.
    Fail(AcceptLoopError),
}

/// The next step of the loop. Cancellation stops it; a connection that is not there
/// yet makes it sleep for the poll interval; a failure that concerns only the peer,
/// and any handshake's end, make it go on; only a token that cannot be polled or a
/// listener in trouble stop it with an error.
pub fn next_action(event: LoopEvent) -> (r: LoopAction)
    ensures
        match event {
            LoopEvent::Polled(Ok(true)) => r == LoopAction::Finish,
            LoopEvent::Polled(Ok(false)) => r == LoopAction::Accept,
            LoopEvent::Polled(Err(e)) => r == LoopAction::Fail(AcceptLoopError::Cancellation(e)),
            LoopEvent::AcceptFailed(kind) => if kind == AcceptErrorKind::WouldBlock {
                r == LoopAction::Sleep(POLL_INTERVAL_MS)
            } else if is_transient(kind) {
                r == LoopAction::Continue
            } else {
                r == LoopAction::Fail(AcceptLoopError::Accept(kind))
            },
            LoopEvent::Handshaken(_) => r == LoopAction::Continue,
        },
{
    match event {
        LoopEvent::Polled(Ok(true)) => LoopAction::Finish,
        LoopEvent::Polled(Ok(false)) => LoopAction::Accept,
        LoopEvent::Polled(Err(err)) => LoopAction::Fail(AcceptLoopError::Cancellation(err)),
        LoopEvent::AcceptFailed(kind) => match kind {
            AcceptErrorKind::WouldBlock => LoopAction::Sleep(POLL_INTERVAL_MS),
            AcceptErrorKind::Other => LoopAction::Fail(AcceptLoopError::Accept(kind)),
            _ => LoopAction::Continue,
        },
        LoopEvent::Handshaken(_) => LoopAction::Continue,
    }
}

/// Whether stopping the loop may go on after its source was cancelled: a source that
/// was cancelled before is harmless, a poisoned one is an error.
pub fn stop_after_cancel(cancelled: Result<(), CancellationTokenError>) -> (r: Result<
    (),
    CancellationTokenError,
>)
    ensures
        match cancelled {
            Err(CancellationTokenError::PoisonError(m)) => r == Err::<(), CancellationTokenError>(
                CancellationTokenError::PoisonError(m),
            ),
            _ => r is Ok,
        },
{
    match cancelled {
        Ok(_) | Err(CancellationTokenError::AlreadyCancelled) => Ok(()),
        Err(err) => Err(err),
    }
}

/// The clients admitted so far, each under the username its handshake gave, in the
/// order they were admitted.
#[derive(Debug)]
pub struct ClientRegistry<C> {
    sessions: Vec<(String, C)>,
}

impl<C> ClientRegistry<C> {
    /// The admitted usernames, in order.
    pub closed spec fn usernames(&self) -> Seq<Seq<char>> {
        self.sessions@.map_values(|s: (String, C)| s.0@)
    }

    /// The admitted clients, in order.
    pub closed spec fn clients(&self) -> Seq<C> {
        self.sessions@.map_values(|s: (String, C)| s.1)
    }

    /// An empty registry.
    pub fn new() -> (r: ClientRegistry<C>)
        ensures
            r.usernames().len() == 0,
            r.clients().len() == 0,
    {
        ClientRegistry { sessions: Vec::new() }
    }

    /// How many clients were admitted.
    pub fn len(&self) -> (r: usize)
        ensures
            r == self.clients().len(),
            r == self.usernames().len(),
    {
        self.sessions.len()
    }

    /// The client admitted at place `i`.
    pub fn client(&self, i: usize) -> (r: &C)
        requires
            i < self.clients().len(),
        ensures
            *r == self.clients()[i as int],
    {
        &self.sessions[i].1
    }

    /// The usernames held now: what a new client's handshake must avoid.
    pub fn taken_usernames(&self) -> (r: Vec<String>)
        ensures
            r@.len() == self.usernames().len(),
            forall|i: int| 0 <= i < r@.len() ==> #[trigger] r@[i]@ == self.usernames()[i],
    {
        let mut taken: Vec<String> = Vec::new();
        let mut i: usize = 0;
        while i < self.sessions.len()
            invariant
                i <= self.sessions@.len(),
                taken@.len() == i,
                forall|j: int| 0 <= j < i ==> #[trigger] taken@[j]@ == self.sessions@[j].0@,
            decreases self.sessions@.len() - i,
        {
            taken.push(self.sessions[i].0.clone());
            i = i + 1;
        }
        taken
    }

    /// Admits a client under the username of its handshake.
    pub fn register(&mut self, handshake: &Handshake, client: C)
        ensures
            final(self).usernames() == old(self).usernames().push(handshake.username@),
            final(self).clients() == old(self).clients().push(client),
    {
        self.sessions.push((handshake.username.clone(), client));
        proof {
            assert(final(self).usernames() =~= old(self).usernames().push(handshake.username@));
            assert(final(self).clients() =~= old(self).clients().push(client));
        }
    }
}

} // verus!
