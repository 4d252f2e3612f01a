//! One connection: frames in and out of byte streams, the outbound queue, and
//! the state machine that decides what happens next.

use vstd::prelude::*;
use std::collections::VecDeque;
use std::sync::Arc;
use crate::fault::{ChannelClosed, ChannelError, DecodeError, FramingError};
use crate::frame::{
    after_frame, decode_length_prefix, encode_length_prefix, first_payload, frame_of, holds_frame,
    prefix_of, prefix_value, MAX_PAYLOAD, PREFIX_SIZE,
};
use crate::message::{Envelope, Message};
use crate::parser::{dispatched, Parser, Reply, Table};
use crate::stream::ByteStream;

verus! {

/// Where a connection stands.
#[derive(Clone, Copy, Debug, PartialEq, Eq, Structural)]
pub enum ConnectionState {
    /// Frames are read and written.
    Open,
    /// The transport failed or a shutdown was asked for; the handles are being
    /// dropped.
    Closing,
    /// The connection is torn down. Nothing leaves this state.
    Closed,
}

/// What happened on the connection, as the caller that owns the socket tells
/// it.
#[derive(Clone, Debug, PartialEq, Eq)]
pub enum Event {
    /// A frame was read and its payload decoded to this message.
    FrameDecoded(Message),
    /// A frame was read, but its payload is no envelope.
    FrameRejected(DecodeError),
    /// Reading a frame failed.
    ReadFailed(FramingError),
    /// The write half can take a frame.
    WriteReady,
    /// Writing a frame failed.
    WriteFailed(FramingError),
    /// The application asks for the connection to end.
    Shutdown,
    /// The handles of the connection have been dropped.
    TornDown,
}

/// What the caller that owns the socket is to do next.
#[derive(Clone, Debug, PartialEq, Eq)]
pub enum Action {
    /// Nothing.
    Idle,
    /// Serialize this envelope and write it as one frame.
    Send(Envelope),
    /// Make this failure known; the connection stays open.
    Report(ChannelError),
    /// Stop the other loop, drop the handles, then tell `TornDown`.
    Close,
    /// Leave the duty cycle: the connection is closed.
    Stop,
}

/// A connection as mathematical values: its state and the envelopes that wait
/// to be sent, the next one first.
pub struct ChannelView {
    /// Where the connection stands.
    pub state: ConnectionState,
    /// The outbound queue.
    pub queue: Seq<Envelope>,
}

impl ChannelView {
    /// A connection that has just been opened.
    pub open spec fn opened() -> ChannelView {
        ChannelView { state: ConnectionState::Open, queue: Seq::<Envelope>::empty() }
    }

    /// A connection on its way down: the queue is released.
    pub open spec fn closing() -> ChannelView {
        ChannelView { state: ConnectionState::Closing, queue: Seq::<Envelope>::empty() }
    }

    /// A connection torn down.
    pub open spec fn closed() -> ChannelView {
        ChannelView { state: ConnectionState::Closed, queue: Seq::<Envelope>::empty() }
    }

    /// The connection after `envelope` was submitted, and whether it was taken:
    /// it is appended behind all that wait, unless the connection is closed.
    pub open spec fn submitted(self, envelope: Envelope) -> (ChannelView, Result<(), ChannelClosed>) {
        if self.state is Closed {
            (self, Err(ChannelClosed))
        } else {
            (ChannelView { queue: self.queue.push(envelope), ..self }, Ok(()))
        }
    }

    /// A failure of reading or writing, met while open: one of the transport
    /// starts the teardown, any other is reported.
    pub open spec fn failed(self, error: FramingError) -> (ChannelView, Action) {
        if error.is_fatal() {
            (ChannelView::closing(), Action::Close)
        } else {
            (self, Action::Report(ChannelError::Framing(error)))
        }
    }

    /// The connection after the registry returned `reply` for an inbound
    /// message, and what is to be done: while open, a reply joins the queue
    /// behind all that wait and a failure of the handler is reported.
    pub open spec fn settled(self, reply: Reply) -> (ChannelView, Action) {
        match self.state {
            ConnectionState::Closed => (self, Action::Stop),
            ConnectionState::Closing => (self, Action::Close),
            ConnectionState::Open => match reply {
                Ok(Some(envelope)) => (
                    ChannelView { queue: self.queue.push(envelope), ..self },
                    Action::Idle,
                ),
                Ok(None) => (self, Action::Idle),
                Err(error) => (self, Action::Report(ChannelError::Handler(error))),
            },
        }
    }

    /// The connection after `event`, and what is to be done. `reply` is what
    /// the registry returned for the message of a `FrameDecoded`; no other
    /// event looks at it.
    pub open spec fn next(self, event: Event, reply: Reply) -> (ChannelView, Action) {
        match self.state {
            ConnectionState::Closed => (self, Action::Stop),
            ConnectionState::Closing => match event {
                Event::TornDown => (ChannelView::closed(), Action::Stop),
                _ => (self, Action::Close),
            },
            ConnectionState::Open => match event {
                Event::FrameDecoded(_) => self.settled(reply),
                Event::FrameRejected(error) => (self, Action::Report(ChannelError::Decode(error))),
                Event::ReadFailed(error) => self.failed(error),
                Event::WriteReady => if self.queue.len() > 0 {
                    (
                        ChannelView { queue: self.queue.drop_first(), ..self },
                        Action::Send(self.queue.first()),
                    )
                } else {
                    (self, Action::Idle)
                },
                Event::WriteFailed(error) => self.failed(error),
                Event::Shutdown => (ChannelView::closing(), Action::Close),
                Event::TornDown => (ChannelView::closed(), Action::Stop),
            },
        }
    }

    /// Whether `reply` can be what the registry `table` returns for `event`
    /// in this state: the outcome of the dispatch for a message that arrives
    /// while open, and `Ok(None)` wherever the registry is not asked.
    pub open spec fn consults(self, table: Table, event: Event, reply: Reply) -> bool {
        match event {
            Event::FrameDecoded(message) if self.state is Open => dispatched(
                table,
                message@,
                reply,
            ),
            _ => reply == Ok::<Option<Envelope>, crate::fault::HandlerError>(None),
        }
    }
}

/// One connection: its state, its outbound queue and the registry that
/// answers its inbound messages.
pub struct Messenger {
    state: ConnectionState,
    oqueue: VecDeque<Envelope>,
    parser: Arc<Parser>,
}

impl View for Messenger {
    type V = ChannelView;

    closed spec fn view(&self) -> ChannelView {
        ChannelView { state: self.state, queue: self.oqueue@ }
    }
}

impl Messenger {
    /// The handlers that answer the inbound messages of this connection.
    pub closed spec fn handlers(&self) -> Table {
        (*self.parser)@
    }

    /// An open connection with an empty queue, whose inbound messages go to
    /// `parser`.
    pub fn with_connection(parser: Arc<Parser>) -> (messenger: Messenger)
        ensures
            messenger@ == ChannelView::opened(),
            messenger.handlers() == (*parser)@,
    {
        Messenger { state: ConnectionState::Open, oqueue: VecDeque::new(), parser }
    }

    /// The envelopes that wait to be sent, the next one first.
    pub fn get_oqueue(&self) -> (queue: &VecDeque<Envelope>)
        ensures
            queue@ == self@.queue,
    {
        &self.oqueue
    }

    /// The registry that answers the inbound messages of this connection.
    pub fn get_parser(&self) -> (parser: &Arc<Parser>)
        ensures
            (**parser)@ == self.handlers(),
    {
        &self.parser
    }

    /// Where the connection stands.
    pub fn get_state(&self) -> (state: ConnectionState)
        ensures
            state == self@.state,
    {
        self.state
    }

    /// Reads the length prefix of the next frame. With fewer than four bytes
    /// in the stream it fails with `Truncated` and the stream is drained.
    pub fn read_message_size(stream: &mut ByteStream) -> (size: Result<u32, FramingError>)
        ensures
            old(stream)@.len() >= PREFIX_SIZE ==> size == Ok::<u32, FramingError>(
                prefix_value(old(stream)@) as u32,
            ) && final(stream)@ == old(stream)@.skip(PREFIX_SIZE as int),
            old(stream)@.len() < PREFIX_SIZE ==> size == Err::<u32, FramingError>(
                FramingError::Truncated,
            ) && final(stream)@ == Seq::<u8>::empty(),
    {
        let head: Option<Vec<u8>> = stream.read_exact(PREFIX_SIZE);
        match head {
            Some(bytes) => {
                proof {
                    assert(bytes@.take(PREFIX_SIZE as int) =~= old(stream)@.take(
                        PREFIX_SIZE as int,
                    ));
                }
                decode_length_prefix(bytes.as_slice())
            },
            None => Err(FramingError::Truncated),
        }
    }

    /// Writes `size` as the length prefix of a frame.
    fn write_message_size(stream: &mut ByteStream, size: u32)
        ensures
            final(stream)@ == old(stream)@ + prefix_of(size),
    {
        let prefix: [u8; 4] = encode_length_prefix(size);
        stream.write_all(prefix.as_slice());
    }

    /// Reads one frame and returns its payload. Where the stream ends before
    /// the prefix or before the payload is whole, it fails with `Truncated`
    /// and the stream is drained.
    pub fn recv_message(istream: &mut ByteStream) -> (payload: Result<Vec<u8>, FramingError>)
        ensures
            holds_frame(old(istream)@) ==> (payload matches Ok(bytes) && bytes@ == first_payload(
                old(istream)@,
            )) && final(istream)@ == after_frame(old(istream)@),
            !holds_frame(old(istream)@) ==> payload == Err::<Vec<u8>, FramingError>(
                FramingError::Truncated,
            ) && final(istream)@ == Seq::<u8>::empty(),
    {
        let size: u32 = match Messenger::read_message_size(istream) {
            Ok(size) => size,
            Err(error) => {
                return Err(error);
            },
        };
        proof {
            crate::frame::lemma_be_value_bound(old(istream)@.take(PREFIX_SIZE as int));
        }
        let body: Option<Vec<u8>> = istream.read_exact(size as usize);
        match body {
            Some(bytes) => {
                proof {
                    assert(bytes@ =~= first_payload(old(istream)@));
                    assert(istream@ =~= after_frame(old(istream)@));
                }
                Ok(bytes)
            },
            None => Err(FramingError::Truncated),
        }
    }

    /// Writes `message`, the serialized form of one envelope, as one frame:
    /// its length in four bytes, then the bytes themselves. A message too long
    /// for the prefix fails with `Oversized` before anything is written.
    pub fn send_message(ostream: &mut ByteStream, message: &[u8]) -> (sent: Result<
        (),
        FramingError,
    >)
        ensures
            message@.len() <= MAX_PAYLOAD ==> sent == Ok::<(), FramingError>(()) && final(ostream)@
                == old(ostream)@ + frame_of(message@),
            message@.len() > MAX_PAYLOAD ==> sent == Err::<(), FramingError>(
                FramingError::Oversized,
            ) && final(ostream)@ == old(ostream)@,
    {
        if message.len() > MAX_PAYLOAD {
            return Err(FramingError::Oversized);
        }
        Messenger::write_message_size(ostream, message.len() as u32);
        ostream.write_all(message);
        proof {
            assert(ostream@ =~= old(ostream)@ + frame_of(message@));
        }
        Ok(())
    }

    /// Submits `envelope` for sending: it is appended behind all that wait.
    /// Fails with `ChannelClosed`, and changes nothing, once the connection is
    /// closed.
    pub fn add_to_send_queue(&mut self, envelope: Envelope) -> (taken: Result<(), ChannelClosed>)
        ensures
            final(self)@ == old(self)@.submitted(envelope).0,
            taken == old(self)@.submitted(envelope).1,
            final(self).handlers() == old(self).handlers(),
    {
        match self.state {
            ConnectionState::Closed => Err(ChannelClosed),
            _ => {
                self.oqueue.push_back(envelope);
                Ok(())
            },
        }
    }

    /// One turn of the duty cycle: takes what happened on the connection and
    /// returns what is to be done.
    ///
    /// While open, a decoded message goes to the registry and its reply, if
    /// any, joins the queue; a handler's failure, a rejected frame and a
    /// truncated one are reported and the connection goes on; a readiness to
    /// write takes the envelope that has waited longest; a failure of the
    /// transport and a shutdown start the teardown, which `TornDown` ends.
    pub fn handle_client_stream(&mut self, event: Event) -> (action: Action)
        ensures
            exists|reply: Reply|
                old(self)@.consults(old(self).handlers(), event, reply) && #[trigger] old(
                    self,
                )@.next(event, reply) == (final(self)@, action),
            final(self).handlers() == old(self).handlers(),
    {
        let ghost pre = self@;
        let ghost nothing: Reply = Ok(None);
        match self.state {
            ConnectionState::Closed => {
                assert(pre.next(event, nothing) == (self@, Action::Stop));
                Action::Stop
            },
            ConnectionState::Closing => match event {
                Event::TornDown => {
                    self.teardown();
                    assert(pre.next(event, nothing) == (self@, Action::Stop));
                    Action::Stop
                },
                _ => {
                    assert(pre.next(event, nothing) == (self@, Action::Close));
                    Action::Close
                },
            },
            ConnectionState::Open => match event {
                Event::FrameDecoded(message) => {
                    let reply: Reply = self.parser.parse_message(&message);
                    let action: Action = self.settle(reply);
                    assert(pre.next(event, reply) == (self@, action));
                    action
                },
                Event::FrameRejected(error) => {
                    let action: Action = Action::Report(ChannelError::Decode(error));
                    assert(pre.next(event, nothing) == (self@, action));
                    action
                },
                Event::ReadFailed(error) => {
                    let action: Action = self.fail(error);
                    assert(pre.next(event, nothing) == (self@, action));
                    action
                },
                Event::WriteReady => {
                    let action: Action = match self.oqueue.pop_front() {
                        Some(envelope) => Action::Send(envelope),
                        None => Action::Idle,
                    };
                    assert(pre.next(event, nothing) == (self@, action));
                    action
                },
                Event::WriteFailed(error) => {
                    let action: Action = self.fail(error);
                    assert(pre.next(event, nothing) == (self@, action));
                    action
                },
                Event::Shutdown => {
                    self.state = ConnectionState::Closing;
                    self.oqueue.clear();
                    assert(pre.next(event, nothing) == (self@, Action::Close));
                    Action::Close
                },
                Event::TornDown => {
                    self.teardown();
                    assert(pre.next(event, nothing) == (self@, Action::Stop));
                    Action::Stop
                },
            },
        }
    }

    /// Takes in what the registry returned for an inbound message: the second
    /// half of the turn for a `FrameDecoded`, for a caller that has asked the
    /// registry itself, outside of any lock that guards this connection.
    pub fn settle(&mut self, reply: Reply) -> (action: Action)
        ensures
            final(self)@ == old(self)@.settled(reply).0,
            action == old(self)@.settled(reply).1,
            final(self).handlers() == old(self).handlers(),
    {
        match self.state {
            ConnectionState::Closed => Action::Stop,
            ConnectionState::Closing => Action::Close,
            ConnectionState::Open => match reply {
                Ok(Some(envelope)) => {
                    self.oqueue.push_back(envelope);
                    Action::Idle
                },
                Ok(None) => Action::Idle,
                Err(error) => Action::Report(ChannelError::Handler(error)),
            },
        }
    }

    /// Takes in a failure of reading or writing.
    fn fail(&mut self, error: FramingError) -> (action: Action)
        ensures
            (final(self)@, action) == old(self)@.failed(error),
            final(self).handlers() == old(self).handlers(),
    {
        if error.is_fatal() {
            self.state = ConnectionState::Closing;
            self.oqueue.clear();
            Action::Close
        } else {
            Action::Report(ChannelError::Framing(error))
        }
    }

    /// Ends the teardown.
    fn teardown(&mut self)
        ensures
            final(self)@ == ChannelView::closed(),
            final(self).handlers() == old(self).handlers(),
    {
        self.state = ConnectionState::Closed;
        self.oqueue.clear();
    }
}

/// One thing that can be done to a connection from outside.
pub enum Step {
    /// An envelope is submitted.
    Submit(Envelope),
    /// An event is taken in, with what the registry returned for it.
    Turn(Event, Reply),
}

impl ChannelView {
    /// The connection after one step.
    pub open spec fn stepped(self, step: Step) -> ChannelView {
        match step {
            Step::Submit(envelope) => self.submitted(envelope).0,
            Step::Turn(event, reply) => self.next(event, reply).0,
        }
    }

    /// The connection after `steps`, taken in turn.
    pub open spec fn after(self, steps: Seq<Step>) -> ChannelView
        decreases steps.len(),
    {
        if steps.len() == 0 {
            self
        } else {
            self.after(steps.drop_last()).stepped(steps.last())
        }
    }

    /// The connection after each of `envelopes` was submitted, in turn.
    pub open spec fn submitted_all(self, envelopes: Seq<Envelope>) -> ChannelView
        decreases envelopes.len(),
    {
        if envelopes.len() == 0 {
            self
        } else {
            self.submitted_all(envelopes.drop_last()).submitted(envelopes.last()).0
        }
    }

    /// The connection after the write half was ready `turns` times, and what
    /// was to be done each time.
    pub open spec fn drained(self, turns: nat) -> (ChannelView, Seq<Action>)
        decreases turns,
    {
        if turns == 0 {
            (self, Seq::<Action>::empty())
        } else {
            let before = self.drained((turns - 1) as nat);
            let turn = before.0.next(Event::WriteReady, Ok(None));
            (turn.0, before.1.push(turn.1))
        }
    }
}

/// Submitting to a connection that is not closed appends: the envelopes join
/// the queue behind all that wait, in the order in which they were submitted.
pub proof fn lemma_submissions_queue_in_order(pre: ChannelView, envelopes: Seq<Envelope>)
    requires
        !(pre.state is Closed),
    ensures
        pre.submitted_all(envelopes) == (ChannelView { queue: pre.queue + envelopes, ..pre }),
    decreases envelopes.len(),
{
    if envelopes.len() == 0 {
        assert(pre.queue + envelopes =~= pre.queue);
    } else {
        lemma_submissions_queue_in_order(pre, envelopes.drop_last());
        assert((pre.queue + envelopes.drop_last()).push(envelopes.last()) =~= pre.queue
            + envelopes);
    }
}

/// The queue is first in, first out: each time the write half is ready, an
/// open connection hands out the envelope that has waited longest.
pub proof fn lemma_queue_drains_in_order(pre: ChannelView, turns: nat)
    requires
        pre.state is Open,
        turns <= pre.queue.len(),
    ensures
        pre.drained(turns).0 == (ChannelView { queue: pre.queue.skip(turns as int), ..pre }),
        pre.drained(turns).1 == Seq::new(turns, |i: int| Action::Send(pre.queue[i])),
    decreases turns,
{
    if turns == 0 {
        assert(pre.queue.skip(0) =~= pre.queue);
        assert(pre.drained(turns).1 =~= Seq::new(turns, |i: int| Action::Send(pre.queue[i])));
    } else {
        let fewer = (turns - 1) as nat;
        lemma_queue_drains_in_order(pre, fewer);
        let before = pre.drained(fewer);
        assert(before.0.queue.first() == pre.queue[fewer as int]);
        assert(before.0.queue.drop_first() =~= pre.queue.skip(turns as int));
        assert(pre.drained(turns).1 =~= Seq::new(turns, |i: int| Action::Send(pre.queue[i])));
    }
}

/// Envelopes submitted to an open connection with an empty queue are handed
/// out for writing in the order of their submission, and then the queue is
/// empty again.
pub proof fn lemma_envelopes_leave_in_submission_order(envelopes: Seq<Envelope>)
    ensures
        ChannelView::opened().submitted_all(envelopes).drained(envelopes.len()).0
            == ChannelView::opened(),
        ChannelView::opened().submitted_all(envelopes).drained(envelopes.len()).1 == Seq::new(
            envelopes.len(),
            |i: int| Action::Send(envelopes[i]),
        ),
{
    let empty = ChannelView::opened();
    lemma_submissions_queue_in_order(empty, envelopes);
    assert(empty.queue + envelopes =~= envelopes);
    let full = empty.submitted_all(envelopes);
    lemma_queue_drains_in_order(full, envelopes.len());
    assert(full.queue.skip(envelopes.len() as int) =~= Seq::<Envelope>::empty());
    assert(Seq::new(envelopes.len(), |i: int| Action::Send(full.queue[i])) =~= Seq::new(
        envelopes.len(),
        |i: int| Action::Send(envelopes[i]),
    ));
}

/// The turn for a decoded message can be taken in two halves: asking the
/// registry, then settling its reply, comes to the same as the whole turn.
pub proof fn lemma_settling_is_the_turn(pre: ChannelView, message: Message, reply: Reply)
    ensures
        pre.next(Event::FrameDecoded(message), reply) == pre.settled(reply),
{
}

/// Only the transport or the application ends a connection: an open
/// connection stays open through every message, every failure of a handler
/// and every frame that is rejected or cut short, and leaves the open state
/// exactly for a failure of the transport on either half, a shutdown, or the
/// teardown itself. The duty cycle is told to stop only when the connection
/// is closed.
pub proof fn lemma_open_until_the_transport_fails(pre: ChannelView, event: Event, reply: Reply)
    requires
        pre.state is Open,
    ensures
        !(pre.next(event, reply).0.state is Open) <==> (event is Shutdown || event is TornDown || (
        event matches Event::ReadFailed(error) && error.is_fatal()) || (event matches Event::WriteFailed(
            error,
        ) && error.is_fatal())),
        pre.next(event, reply).1 is Stop <==> pre.next(event, reply).0.state is Closed,
        pre.next(event, reply).1 is Close <==> pre.next(event, reply).0.state is Closing,
{
}

/// While the connection is live no envelope is dropped in silence: after any
/// event that leaves it open, all that waited still wait, in their order and
/// ahead of any newcomer, but for the one envelope that is handed out to be
/// written.
pub proof fn lemma_no_silent_drop(pre: ChannelView, event: Event, reply: Reply)
    requires
        pre.state is Open,
        pre.next(event, reply).0.state is Open,
    ensures
        pre.next(event, reply).1 is Send ==> pre.queue.len() > 0 && pre.next(event, reply).1
            == Action::Send(pre.queue.first()) && pre.next(event, reply).0.queue
            == pre.queue.drop_first(),
        !(pre.next(event, reply).1 is Send) ==> pre.queue.is_prefix_of(
            pre.next(event, reply).0.queue,
        ),
{
}

/// Closed is the end: whatever is done to a closed connection, it stays as it
/// is, every submission fails with `ChannelClosed` and every event is answered
/// with `Stop`.
pub proof fn lemma_closed_is_terminal(pre: ChannelView, steps: Seq<Step>)
    requires
        pre.state is Closed,
    ensures
        pre.after(steps) == pre,
        forall|envelope: Envelope| #[trigger]
            pre.after(steps).submitted(envelope) == (pre, Err::<(), ChannelClosed>(ChannelClosed)),
        forall|event: Event, reply: Reply| #[trigger]
            pre.after(steps).next(event, reply) == (pre, Action::Stop),
    decreases steps.len(),
{
    if steps.len() > 0 {
        lemma_closed_is_terminal(pre, steps.drop_last());
    }
}

/// A connection that was opened and has come to be closed holds no envelope:
/// the teardown releases the queue, and nothing joins it afterwards.
pub proof fn lemma_closed_queue_is_empty(steps: Seq<Step>)
    ensures
        ChannelView::opened().after(steps).state is Closed ==> ChannelView::opened().after(
            steps,
        ).queue.len() == 0,
    decreases steps.len(),
{
    if steps.len() > 0 {
        lemma_closed_queue_is_empty(steps.drop_last());
    }
}

} // verus!
