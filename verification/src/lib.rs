//! A point-to-point framed messaging layer for one byte-stream connection.
//!
//! Every envelope travels as one frame: a four-byte big-endian length followed
//! by that many payload bytes. The crate holds the frame codec ([`frame`]),
//! the envelopes themselves ([`message`], [`ack`], [`error`]), the registry
//! that routes a decoded message to its handler ([`parser`]), and the state
//! machine of a connection with its first-in-first-out outbound queue
//! ([`messenger`]).
//!
//! The crate performs no I/O and knows no wire form of an envelope. Bytes come
//! in and go out through a [`stream::ByteStream`]; the caller moves them
//! between that buffer and the socket, turns payloads into envelopes and back,
//! and tells the connection what happened. The connection answers with what
//! is to be done next.

pub mod ack;
pub mod error;
pub mod fault;
pub mod frame;
pub mod message;
pub mod messenger;
pub mod parser;
pub mod stream;
