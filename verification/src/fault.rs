//! The failures that the messaging layer reports.

use vstd::prelude::*;

verus! {

/// A failure of the frame codec.
#[derive(Clone, Copy, Debug, PartialEq, Eq, Structural)]
pub enum FramingError {
    /// The stream ended before the four prefix bytes, or before the payload
    /// that the prefix declares.
    Truncated,
    /// The transport itself failed. This ends the connection.
    Io,
    /// The payload is longer than a four-byte prefix can declare.
    Oversized,
}

impl FramingError {
    /// Whether the connection can go on after this failure.
    pub open spec fn spec_is_fatal(self) -> bool {
        self is Io
    }

    /// Whether the connection can go on after this failure: only a failure of
    /// the transport ends it.
    #[verifier::when_used_as_spec(spec_is_fatal)]
    pub fn is_fatal(self) -> (fatal: bool)
        ensures
            fatal == self.spec_is_fatal(),
    {
        match self {
            FramingError::Io => true,
            FramingError::Truncated => false,
            FramingError::Oversized => false,
        }
    }
}


/// The payload of a frame did not parse as an envelope. The frame is dropped
/// and the connection goes on.
#[derive(Clone, Copy, Debug, PartialEq, Eq, Structural)]
pub struct DecodeError;

/// A registered handler failed in its own work. The message is dropped, no
/// reply is made and the connection goes on.
#[derive(Clone, Copy, Debug, PartialEq, Eq, Structural)]
pub struct HandlerError {
    /// The handler's own number for what went wrong.
    pub code: u32,
}

/// An envelope was submitted after the connection was torn down.
#[derive(Clone, Copy, Debug, PartialEq, Eq, Structural)]
pub struct ChannelClosed;

/// A failure that is reported while the connection stays open.
#[derive(Clone, Copy, Debug, PartialEq, Eq, Structural)]
pub enum ChannelError {
    /// A frame could not be read or written, without fault of the transport.
    Framing(FramingError),
    /// A frame did not hold an envelope.
    Decode(DecodeError),
    /// A handler failed on a message.
    Handler(HandlerError),
}

} // verus!
