//! The decisions of an echo server's connection handler. The server reads
//! into a buffer of `BUFFER_SIZE` bytes and writes back what it read; the
//! reading and writing themselves are done by the caller.
use vstd::prelude::*;

verus! {

/// The size of the buffer a connection is read into.
pub const BUFFER_SIZE: usize = 50;

/// What a read from the connection gave.
#[derive(Clone, Copy, Debug, PartialEq, Eq)]
pub enum ReadOutcome {
    /// This many bytes were read into the buffer.
    Received(usize),
    /// The read failed.
    Failed,
}

/// What the handler does next.
#[derive(Clone, Copy, Debug, PartialEq, Eq)]
pub enum EchoAction {
    /// Write back the first this-many bytes of the buffer, then read again.
    Reply(usize),
    /// Shut the connection down in both directions and stop.
    Shutdown,
}

/// The handler's answer to a read: every read, even an empty one, is echoed
/// back in full and followed by another read; a failed read ends the connection.
pub fn handle_read(outcome: ReadOutcome) -> (action: EchoAction)
    requires
        outcome matches ReadOutcome::Received(size) ==> size <= BUFFER_SIZE,
    ensures
        match outcome {
            ReadOutcome::Received(size) => action == EchoAction::Reply(size),
            ReadOutcome::Failed => action == EchoAction::Shutdown,
        },
{
    match outcome {
        ReadOutcome::Received(size) => EchoAction::Reply(size),
        ReadOutcome::Failed => EchoAction::Shutdown,
    }
}

/// Whether the handler reads again after `action`.
pub fn keeps_reading(action: EchoAction) -> (more: bool)
    ensures
        more <==> action is Reply,
{
    match action {
        EchoAction::Reply(_) => true,
        EchoAction::Shutdown => false,
    }
}

} // verus!
