//! The registry of handlers: which function answers which kind of message.

use vstd::prelude::*;
use std::collections::HashMap;
use crate::fault::HandlerError;
use crate::message::{Envelope, Message, MessageView};

verus! {

/// What comes of handing a message to a handler: a reply to send, nothing, or
/// the handler's failure.
pub type Reply = Result<Option<Envelope>, HandlerError>;

/// Application logic for one kind of message.
pub trait Handler: Send + Sync {
    /// Whether `reply` is among the answers that this handler may give to
    /// `message`. A handler that says nothing of itself may give any.
    open spec fn answers(&self, message: MessageView, reply: Reply) -> bool {
        true
    }

    /// Handles `message`: returns the reply to send, if there is one, or the
    /// failure.
    fn handle(&self, message: &Message) -> (reply: Reply)
        ensures
            self.answers(message@, reply),
    ;
}

/// A handler as the registry holds it.
pub struct Binding {
    /// The application's handler.
    pub handler: Box<dyn Handler>,
}

/// The handlers bound so far, by parser id.
pub type Table = Map<u32, Binding>;

/// The table after an attempt to bind `parser` to `parser_id`, and whether it
/// was bound: an id that is bound already keeps its handler.
pub open spec fn registered(table: Table, parser_id: u32, parser: Binding) -> (Table, bool) {
    if table.contains_key(parser_id) {
        (table, false)
    } else {
        (table.insert(parser_id, parser), true)
    }
}

/// Whether `reply` can come of dispatching `message` over `table`: nothing
/// where no handler is bound to its parser id, else an answer of the handler
/// that is.
pub open spec fn dispatched(table: Table, message: MessageView, reply: Reply) -> bool {
    if table.contains_key(message.p_id) {
        table[message.p_id].handler.answers(message, reply)
    } else {
        reply == Ok::<Option<Envelope>, HandlerError>(None)
    }
}

/// Maps parser ids to handlers. A binding is never replaced or removed.
pub struct Parser {
    parsers: HashMap<u32, Binding>,
}

impl View for Parser {
    type V = Table;

    closed spec fn view(&self) -> Table {
        self.parsers@
    }
}

impl Parser {
    /// A registry with no handler bound.
    pub fn new() -> (parser: Parser)
        ensures
            parser@ == Table::empty(),
    {
        Parser { parsers: HashMap::new() }
    }

    /// Hands `message` to the handler bound to its parser id and returns what
    /// the handler returns. A message whose id is not bound is dropped:
    /// `Ok(None)`, which is no failure.
    pub fn parse_message(&self, message: &Message) -> (reply: Reply)
        ensures
            dispatched(self@, message@, reply),
    {
        let parser_id: u32 = message.get_parser_id();
        let found: Option<&Binding> = self.parsers.get(&parser_id);
        match found {
            Some(binding) => binding.handler.handle(message),
            None => Ok(None),
        }
    }

    /// Binds `parser` to `parser_id` unless the id is bound already. Returns
    /// whether it was bound; if not, nothing has changed.
    pub fn register_parser(&mut self, parser_id: u32, parser: Box<dyn Handler>) -> (bound: bool)
        ensures
            final(self)@ == registered(old(self)@, parser_id, Binding { handler: parser }).0,
            bound == registered(old(self)@, parser_id, Binding { handler: parser }).1,
    {
        if self.parsers.contains_key(&parser_id) {
            return false;
        }
        self.parsers.insert(parser_id, Binding { handler: parser });
        true
    }

    /// Whether a handler is bound to `parser_id`.
    pub fn is_registered(&self, parser_id: u32) -> (bound: bool)
        ensures
            bound == self@.contains_key(parser_id),
    {
        self.parsers.contains_key(&parser_id)
    }
}

/// The first handler bound to an id stays: a second registration for the same
/// id returns false and changes nothing, so that a message with that id still
/// goes to the handler bound first.
pub proof fn lemma_first_registration_stays(
    table: Table,
    parser_id: u32,
    first: Binding,
    second: Binding,
)
    ensures
        !registered(registered(table, parser_id, first).0, parser_id, second).1,
        registered(registered(table, parser_id, first).0, parser_id, second).0 == registered(
            table,
            parser_id,
            first,
        ).0,
        registered(table, parser_id, first).0.contains_key(parser_id),
        registered(table, parser_id, first).1 ==> registered(table, parser_id, first).0[parser_id]
            == first,
        !registered(table, parser_id, first).1 ==> registered(table, parser_id, first).0 == table,
        forall|message: MessageView, reply: Reply|
            message.p_id == parser_id ==> (#[trigger] dispatched(
                registered(registered(table, parser_id, first).0, parser_id, second).0,
                message,
                reply,
            ) <==> registered(table, parser_id, first).0[parser_id].handler.answers(message, reply)),
{
}

/// A message whose parser id was never bound is dropped without a failure:
/// the only outcome of its dispatch is `Ok(None)`.
pub proof fn lemma_unknown_id_is_dropped(table: Table, message: MessageView, reply: Reply)
    requires
        !table.contains_key(message.p_id),
    ensures
        dispatched(table, message, reply) <==> reply == Ok::<Option<Envelope>, HandlerError>(None),
{
}

} // verus!

