//! The message envelope: the unit that the two ends exchange.

use vstd::prelude::*;
use crate::ack::Reader;

verus! {

/// What a message envelope holds, as mathematical values.
pub struct MessageView {
    /// Whether the receiver is asked to acknowledge.
    pub ack: bool,
    /// Identifier that the sender gave the message.
    pub m_id: u64,
    /// Identifier of the parser that handles the message.
    pub p_id: u32,
    /// The application's data, opaque to this layer.
    pub message: Seq<u8>,
}

/// A message envelope.
#[derive(Clone, Debug, PartialEq, Eq)]
pub struct Message {
    ack: bool,
    m_id: u64,
    p_id: u32,
    message: Vec<u8>,
}

impl View for Message {
    type V = MessageView;

    closed spec fn view(&self) -> MessageView {
        MessageView { ack: self.ack, m_id: self.m_id, p_id: self.p_id, message: self.message@ }
    }
}

impl Message {
    /// An envelope with the given fields.
    pub fn new(ack: bool, m_id: u64, p_id: u32, message: Vec<u8>) -> (envelope: Message)
        ensures
            envelope@ == (MessageView { ack, m_id, p_id, message: message@ }),
    {
        Message { ack, m_id, p_id, message }
    }

    /// Whether the receiver is asked to acknowledge this message.
    pub fn get_ack(&self) -> (ack: bool)
        ensures
            ack == self@.ack,
    {
        self.ack
    }

    /// The identifier that the sender gave this message.
    pub fn get_message_id(&self) -> (m_id: u64)
        ensures
            m_id == self@.m_id,
    {
        self.m_id
    }

    /// The identifier of the parser that handles this message.
    pub fn get_parser_id(&self) -> (p_id: u32)
        ensures
            p_id == self@.p_id,
    {
        self.p_id
    }

    /// The application's data.
    pub fn get_message(&self) -> (message: &Vec<u8>)
        ensures
            message@ == self@.message,
    {
        &self.message
    }
}

/// What waits in the outbound queue: a message, or the acknowledgment of one.
#[derive(Clone, Debug, PartialEq, Eq)]
pub enum Envelope {
    /// A message envelope.
    Message(Message),
    /// An acknowledgment envelope.
    Ack(Reader),
}

} // verus!
