//! The ways in which an operation of the transport or of the daemonizer fails.
use vstd::prelude::*;

verus! {

/// The exit status of a process that ends on any of these failures.
pub const FAILURE_STATUS: i32 = 1;

/// A failure. Where the operating system refused a call, the variant carries
/// its description of the refusal.
#[derive(Debug, PartialEq, Eq)]
pub enum CoreError {
    /// The path of the pid file cannot be brought into canonical form, or
    /// holds a byte that no platform path string can hold.
    PathResolution,
    /// The queue could not be opened or created.
    QueueOpen(String),
    /// A record could not be pushed onto the queue.
    Send(String),
    /// A record could not be pulled from the queue.
    Receive(String),
    /// What the queue delivered is no wire record.
    Malformed,
    /// The records ended before one with the final flag was seen.
    Incomplete,
    /// The reassembled payload is no UTF-8 text.
    Decode,
    /// The text is neither the expected result nor an error reply; the
    /// variant carries why the text is not the expected result.
    Protocol(String),
    /// The daemon replied that it failed; the variant carries its message.
    Server(String),
    /// The reply queue could not be removed.
    Close(String),
    /// The process could not be forked.
    Fork,
    /// The forked process could not start a session of its own.
    Session,
}

impl CoreError {
    /// Whether the daemon itself reported the failure, as opposed to a fault
    /// of the transport.
    pub open spec fn reported_by_server(self) -> bool {
        self is Server
    }

    /// Whether the daemon itself reported the failure.
    pub fn is_server_error(&self) -> (r: bool)
        ensures
            r == self.reported_by_server(),
    {
        match self {
            CoreError::Server(_) => true,
            _ => false,
        }
    }

    /// The exit status with which the process ends: the same for every failure.
    pub fn exit_code(&self) -> (status: i32)
        ensures
            status == FAILURE_STATUS,
    {
        FAILURE_STATUS
    }
}

} // verus!
