//! The closed set of failures of the protocol engine.
use vstd::prelude::*;

verus! {

/// The kind of an underlying stream failure, as far as the protocol cares.
#[derive(Debug, Clone, Copy, PartialEq, Eq, Structural)]
pub enum IoErrorKind {
    /// The stream ended in the middle of a frame body.
    UnexpectedEof,
    /// The peer closed its end while a frame was being written.
    BrokenPipe,
    /// Any other stream failure.
    Other,
}

/// Every way in which reading, writing or dispatching a message can fail.
#[derive(Debug, Clone, PartialEq, Eq, Structural)]
pub enum NmError {
    /// The input stream ended cleanly between frames.
    Disconnected,
    /// An outgoing JSON payload of `len` bytes exceeds the cap `max`.
    OutgoingTooLarge { len: usize, max: usize },
    /// An incoming frame claims `len` payload bytes, more than the cap `max`.
    IncomingTooLarge { len: usize, max: usize },
    /// An incoming payload is not valid UTF-8.
    IncomingNotUtf8,
    /// A value could not be serialized to JSON.
    SerializeJson,
    /// A payload did not parse into the shape the caller asked for.
    DeserializeJson,
    /// The underlying stream failed.
    Io(IoErrorKind),
    /// A background task ended without producing its result.
    TaskJoin,
}

} // verus!
