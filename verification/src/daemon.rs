//! The decisions of the fork/detach sequence that turns a foreground process
//! into a daemon.
//!
//! The sequence is a small machine. In each state it names the one call that
//! is to be made next; the status that the operating system answers takes it
//! to the next state. A status of `-1` is a refusal. The caller makes the
//! calls and ends as the machine says: the invoking process quits, its child
//! goes on as the daemon.
use crate::error::CoreError;
use vstd::prelude::*;

verus! {

/// What the caller is to do once the sequence has ended.
#[allow(non_camel_case_types)]
#[derive(Debug, Clone, Copy, PartialEq, Eq, Structural)]
pub enum Status {
    /// This is the daemon: go on.
    CONTINUE,
    /// This is the invoking process: leave, with success.
    QUIT,
}

/// The number of standard streams: input, output and error, the descriptors
/// `0`, `1` and `2`.
pub const STANDARD_STREAMS: u8 = 3;

/// The call that is to be made next.
#[derive(Debug, PartialEq, Eq)]
pub enum Action {
    /// Fork the process. The status is the child's process id in the
    /// invoking process, and `0` in the child.
    Fork,
    /// Start a new session, with this process as its leader.
    StartSession,
    /// Close the standard stream with this descriptor.
    CloseStream(i32),
    /// Make no further call: the sequence has ended, with this result.
    Return(Result<Status, CoreError>),
}

/// The state of the sequence.
#[derive(Debug, Clone, Copy, PartialEq, Eq, Structural)]
pub enum Daemonizer {
    /// Nothing was done yet.
    Foreground,
    /// This is the child of the fork, still in the session of its parent.
    Forked,
    /// This is the leader of a session of its own; so many of the standard
    /// streams were closed.
    Detached(u8),
    /// The sequence has ended in the invoking process.
    Parent,
    /// The sequence has ended in the child, which is the daemon now.
    Daemon,
    /// The sequence has ended: the fork was refused.
    ForkRefused,
    /// The sequence has ended: the session could not be started.
    SessionRefused,
}

impl Daemonizer {
    /// The result with which the sequence has ended, if it has ended.
    pub open spec fn result(self) -> Option<Result<Status, CoreError>> {
        match self {
            Daemonizer::Parent => Some(Ok(Status::QUIT)),
            Daemonizer::Daemon => Some(Ok(Status::CONTINUE)),
            Daemonizer::ForkRefused => Some(Err(CoreError::Fork)),
            Daemonizer::SessionRefused => Some(Err(CoreError::Session)),
            _ => None,
        }
    }

    /// The call that is to be made in this state.
    pub open spec fn pending(self) -> Action {
        match self {
            Daemonizer::Foreground => Action::Fork,
            Daemonizer::Forked => Action::StartSession,
            Daemonizer::Detached(closed) => Action::CloseStream(closed as i32),
            _ => Action::Return(self.result().unwrap()),
        }
    }

    /// The state after the pending call was answered with `status`.
    ///
    /// A fork that is refused ends the sequence with an error; in the
    /// invoking process it ends the sequence with `QUIT`; the child goes on.
    /// A session that cannot be started ends the sequence with an error. The
    /// streams are closed one after the other whatever comes of it, and after
    /// the last one the sequence ends with `CONTINUE`. A sequence that has
    /// ended stays as it is.
    pub open spec fn next(self, status: i32) -> Daemonizer {
        match self {
            Daemonizer::Foreground => if status < 0 {
                Daemonizer::ForkRefused
            } else if status > 0 {
                Daemonizer::Parent
            } else {
                Daemonizer::Forked
            },
            Daemonizer::Forked => if status < 0 {
                Daemonizer::SessionRefused
            } else {
                Daemonizer::Detached(0)
            },
            Daemonizer::Detached(closed) => if closed + 1 < STANDARD_STREAMS {
                Daemonizer::Detached((closed + 1) as u8)
            } else {
                Daemonizer::Daemon
            },
            _ => self,
        }
    }

    /// The state after the pending calls were answered with `statuses`, one
    /// after the other.
    pub open spec fn after(self, statuses: Seq<i32>) -> Daemonizer
        decreases statuses.len(),
    {
        if statuses.len() == 0 {
            self
        } else {
            self.after(statuses.drop_last()).next(statuses.last())
        }
    }

    /// The state of a process that has done nothing yet.
    pub fn new() -> (state: Daemonizer)
        ensures
            state == Daemonizer::Foreground,
    {
        Daemonizer::Foreground
    }

    /// The call that is to be made in this state.
    pub fn action(&self) -> (action: Action)
        ensures
            action == self.pending(),
    {
        match self {
            Daemonizer::Foreground => Action::Fork,
            Daemonizer::Forked => Action::StartSession,
            Daemonizer::Detached(closed) => Action::CloseStream(*closed as i32),
            Daemonizer::Parent => Action::Return(Ok(Status::QUIT)),
            Daemonizer::Daemon => Action::Return(Ok(Status::CONTINUE)),
            Daemonizer::ForkRefused => Action::Return(Err(CoreError::Fork)),
            Daemonizer::SessionRefused => Action::Return(Err(CoreError::Session)),
        }
    }

    /// The state after the pending call was answered with `status`.
    pub fn advance(self, status: i32) -> (state: Daemonizer)
        ensures
            state == self.next(status),
    {
        match self {
            Daemonizer::Foreground => if status < 0 {
                Daemonizer::ForkRefused
            } else if status > 0 {
                Daemonizer::Parent
            } else {
                Daemonizer::Forked
            },
            Daemonizer::Forked => if status < 0 {
                Daemonizer::SessionRefused
            } else {
                Daemonizer::Detached(0)
            },
            Daemonizer::Detached(closed) => if closed < STANDARD_STREAMS - 1 {
                Daemonizer::Detached(closed + 1)
            } else {
                Daemonizer::Daemon
            },
            other => other,
        }
    }

    /// The result with which the sequence has ended, if it has ended.
    pub fn outcome(&self) -> (r: Option<Result<Status, CoreError>>)
        ensures
            r == self.result(),
    {
        match self {
            Daemonizer::Parent => Some(Ok(Status::QUIT)),
            Daemonizer::Daemon => Some(Ok(Status::CONTINUE)),
            Daemonizer::ForkRefused => Some(Err(CoreError::Fork)),
            Daemonizer::SessionRefused => Some(Err(CoreError::Session)),
            _ => None,
        }
    }
}

/// In the invoking process the sequence ends with `QUIT` right after the
/// fork, and no further call is made there.
pub proof fn lemma_parent_quits(child_pid: i32)
    requires
        child_pid > 0,
    ensures
        Daemonizer::Foreground.pending() == Action::Fork,
        Daemonizer::Foreground.next(child_pid).result() == Some(
            Ok::<Status, CoreError>(Status::QUIT),
        ),
{
}

/// In the child the sequence starts a session, closes the three standard
/// streams in the order of their descriptors, and ends with `CONTINUE`,
/// whatever came of closing them.
pub proof fn lemma_child_continues(session: i32, closed0: i32, closed1: i32, closed2: i32)
    requires
        session >= 0,
    ensures
        ({
            let forked = Daemonizer::Foreground.next(0);
            let detached = forked.next(session);
            let one = detached.next(closed0);
            let two = one.next(closed1);
            let done = two.next(closed2);
            &&& forked.pending() == Action::StartSession
            &&& detached.pending() == Action::CloseStream(0)
            &&& one.pending() == Action::CloseStream(1)
            &&& two.pending() == Action::CloseStream(2)
            &&& done.result() == Some(Ok::<Status, CoreError>(Status::CONTINUE))
        }),
{
}

/// A refused fork, and a session that cannot be started, end the sequence
/// with an error of their own.
pub proof fn lemma_refusals(fork: i32, session: i32)
    requires
        fork < 0,
        session < 0,
    ensures
        Daemonizer::Foreground.next(fork).result() == Some(
            Err::<Status, CoreError>(CoreError::Fork),
        ),
        Daemonizer::Foreground.next(0).next(session).result() == Some(
            Err::<Status, CoreError>(CoreError::Session),
        ),
{
}

/// A sequence that has ended stays as it is: the transition is made once.
pub proof fn lemma_ended_stays(state: Daemonizer, statuses: Seq<i32>)
    requires
        state.result() is Some,
    ensures
        state.after(statuses) == state,
    decreases statuses.len(),
{
    if statuses.len() > 0 {
        lemma_ended_stays(state, statuses.drop_last());
    }
}

/// From any state, at most five answers end the sequence.
pub proof fn lemma_ends(state: Daemonizer, s0: i32, s1: i32, s2: i32, s3: i32, s4: i32)
    ensures
        state.next(s0).next(s1).next(s2).next(s3).next(s4).result() is Some,
{
}

} // verus!
