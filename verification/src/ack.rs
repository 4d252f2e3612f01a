//! The acknowledgment envelope: the outcome of a message, told to its sender.

use vstd::prelude::*;
use crate::error::ErrorView;

verus! {

/// A status number that the schema does not know.
#[derive(Clone, Copy, Debug, PartialEq, Eq, Structural)]
pub struct NotInSchema(pub u16);

/// Outcome of the message that is acknowledged.
#[derive(Clone, Copy, Debug, PartialEq, Eq, Structural)]
pub enum Status {
    /// The message was handled.
    Success,
    /// The message should be sent again.
    Resend,
    /// The message could not be handled.
    Failure,
}

impl Status {
    /// The status that a number on the wire stands for.
    pub open spec fn spec_from_u16(value: u16) -> Result<Status, NotInSchema> {
        if value == 0 {
            Ok(Status::Success)
        } else if value == 1 {
            Ok(Status::Resend)
        } else if value == 2 {
            Ok(Status::Failure)
        } else {
            Err(NotInSchema(value))
        }
    }

    /// The number that stands for this status on the wire.
    pub open spec fn spec_to_u16(self) -> u16 {
        match self {
            Status::Success => 0,
            Status::Resend => 1,
            Status::Failure => 2,
        }
    }

    /// The status that `value` stands for. A number above 2 stands for none
    /// and comes back in the error.
    #[verifier::when_used_as_spec(spec_from_u16)]
    pub fn from_u16(value: u16) -> (status: Result<Status, NotInSchema>)
        ensures
            status == Status::spec_from_u16(value),
    {
        match value {
            0 => Ok(Status::Success),
            1 => Ok(Status::Resend),
            2 => Ok(Status::Failure),
            n => Err(NotInSchema(n)),
        }
    }

    /// The number that stands for this status.
    #[verifier::when_used_as_spec(spec_to_u16)]
    pub fn to_u16(self) -> (value: u16)
        ensures
            value == self.spec_to_u16(),
    {
        match self {
            Status::Success => 0,
            Status::Resend => 1,
            Status::Failure => 2,
        }
    }

    /// Every status survives the way to its number and back.
    pub proof fn lemma_number_round_trip(self)
        ensures
            Status::spec_from_u16(self.spec_to_u16()) == Ok::<Status, NotInSchema>(self),
    {
    }

    /// A number stands for a status exactly when it is at most 2, and then the
    /// status stands for that number.
    pub proof fn lemma_known_numbers(value: u16)
        ensures
            Status::spec_from_u16(value) is Ok <==> value <= 2,
            Status::spec_from_u16(value) matches Ok(status) ==> status.spec_to_u16() == value,
            Status::spec_from_u16(value) matches Err(unknown) ==> unknown.0 == value,
    {
    }
}

/// What an acknowledgment holds, as mathematical values.
pub struct AckView {
    /// Identifier of the message that is acknowledged.
    pub message_id: u64,
    /// The number of the status, as it travels.
    pub status: u16,
    /// The error record, where there is one.
    pub error: Option<ErrorView>,
}

impl AckView {
    /// The acknowledgment in which no field was set.
    pub open spec fn empty() -> AckView {
        AckView { message_id: 0, status: 0, error: None }
    }

    /// Whether an error record is there exactly when the status is `Failure`,
    /// as the schema asks.
    pub open spec fn consistent(self) -> bool {
        self.error is Some <==> Status::spec_from_u16(self.status) == Ok::<Status, NotInSchema>(
            Status::Failure,
        )
    }
}

/// What an error record that may be absent holds.
pub open spec fn record_view(error: Option<crate::error::Reader>) -> Option<ErrorView> {
    match error {
        Some(record) => Some(record@),
        None => None,
    }
}

/// An acknowledgment that can be read.
#[derive(Clone, Debug, PartialEq, Eq)]
pub struct Reader {
    message_id: u64,
    status: u16,
    error: Option<crate::error::Reader>,
}

impl View for Reader {
    type V = AckView;

    closed spec fn view(&self) -> AckView {
        AckView {
            message_id: self.message_id,
            status: self.status,
            error: match self.error {
                Some(record) => Some(record@),
                None => None,
            },
        }
    }
}

impl Reader {
    /// An acknowledgment with the given fields; `status` is the number as it
    /// travelled, known to the schema or not.
    pub fn new(message_id: u64, status: u16, error: Option<crate::error::Reader>) -> (reader:
        Reader)
        ensures
            reader@ == (AckView { message_id, status, error: record_view(error) }),
    {
        Reader { message_id, status, error }
    }

    /// This acknowledgment, for another reader.
    pub fn borrow(&self) -> (reader: &Reader)
        ensures
            reader == self,
    {
        self
    }

    /// Identifier of the message that is acknowledged.
    pub fn get_message_id(&self) -> (message_id: u64)
        ensures
            message_id == self@.message_id,
    {
        self.message_id
    }

    /// The status, or the number that travelled if the schema does not know it.
    pub fn get_status(&self) -> (status: Result<Status, NotInSchema>)
        ensures
            status == Status::spec_from_u16(self@.status),
    {
        Status::from_u16(self.status)
    }

    /// The error record. Where none was set, the record of zeros and an empty
    /// text is returned.
    pub fn get_error(&self) -> (record: crate::error::Reader)
        ensures
            self@.error matches Some(held) ==> record@ == held,
            self@.error is None ==> record@ == ErrorView::empty(),
    {
        match &self.error {
            Some(record) => record.clone_record(),
            None => crate::error::Builder::new().as_reader(),
        }
    }

    /// Whether an error record was set.
    pub fn has_error(&self) -> (present: bool)
        ensures
            present == self@.error is Some,
    {
        self.error.is_some()
    }

    /// Whether an error record is there exactly when the status is `Failure`.
    pub fn is_consistent(&self) -> (consistent: bool)
        ensures
            consistent == self@.consistent(),
    {
        let failed: bool = match Status::from_u16(self.status) {
            Ok(Status::Failure) => true,
            _ => false,
        };
        self.error.is_some() == failed
    }
}

/// An acknowledgment under construction.
#[derive(Debug)]
pub struct Builder {
    message_id: u64,
    status: u16,
    error: Option<crate::error::Builder>,
}

impl View for Builder {
    type V = AckView;

    closed spec fn view(&self) -> AckView {
        AckView {
            message_id: self.message_id,
            status: self.status,
            error: match self.error {
                Some(record) => Some(record@),
                None => None,
            },
        }
    }
}

impl Builder {
    /// An acknowledgment with no field set: message 0, status `Success`, no
    /// error record.
    pub fn new() -> (builder: Builder)
        ensures
            builder@ == AckView::empty(),
    {
        Builder { message_id: 0, status: 0, error: None }
    }

    /// The acknowledgment as it stands, for reading.
    pub fn as_reader(self) -> (reader: Reader)
        ensures
            reader@ == self@,
    {
        let error: Option<crate::error::Reader> = match self.error {
            Some(record) => Some(record.as_reader()),
            None => None,
        };
        Reader { message_id: self.message_id, status: self.status, error }
    }

    /// This builder, lent on: what is set through the result is set here.
    pub fn borrow(&mut self) -> (builder: &mut Builder)
        ensures
            *builder == *old(self),
            *final(self) == *final(builder),
    {
        self
    }

    /// Identifier of the message that is acknowledged.
    pub fn get_message_id(&self) -> (message_id: u64)
        ensures
            message_id == self@.message_id,
    {
        self.message_id
    }

    /// Sets the identifier of the message that is acknowledged.
    pub fn set_message_id(&mut self, value: u64)
        ensures
            final(self)@ == (AckView { message_id: value, ..old(self)@ }),
    {
        self.message_id = value;
    }

    /// The status that was set last; `Success` where none was.
    pub fn get_status(&self) -> (status: Result<Status, NotInSchema>)
        ensures
            status == Status::spec_from_u16(self@.status),
    {
        Status::from_u16(self.status)
    }

    /// Sets the status.
    pub fn set_status(&mut self, value: Status)
        ensures
            final(self)@ == (AckView { status: value.spec_to_u16(), ..old(self)@ }),
    {
        self.status = value.to_u16();
    }

    /// The error record, to be filled. Where none was set, an empty one is
    /// set first.
    pub fn get_error(&mut self) -> (record: &mut crate::error::Builder)
        ensures
            old(self)@.error matches Some(held) ==> record@ == held,
            old(self)@.error is None ==> record@ == ErrorView::empty(),
            final(self)@ == (AckView { error: Some(final(record)@), ..old(self)@ }),
    {
        if self.error.is_none() {
            self.error = Some(crate::error::Builder::new());
        }
        match &mut self.error {
            Some(record) => record,
            None => vstd::pervasive::unreached(),
        }
    }

    /// Sets the error record to a copy of `value`.
    pub fn set_error(&mut self, value: &crate::error::Reader)
        ensures
            final(self)@ == (AckView { error: Some(value@), ..old(self)@ }),
    {
        let mut record = crate::error::Builder::new();
        record.set_code(value.get_code());
        record.set_message(value.get_message());
        record.set_blame_id(value.get_blame_id());
        self.error = Some(record);
    }

    /// Sets an empty error record, whatever was there, and hands it out to be
    /// filled.
    pub fn init_error(&mut self) -> (record: &mut crate::error::Builder)
        ensures
            record@ == ErrorView::empty(),
            final(self)@ == (AckView { error: Some(final(record)@), ..old(self)@ }),
    {
        self.error = Some(crate::error::Builder::new());
        match &mut self.error {
            Some(record) => record,
            None => vstd::pervasive::unreached(),
        }
    }

    /// Whether an error record was set.
    pub fn has_error(&self) -> (present: bool)
        ensures
            present == self@.error is Some,
    {
        self.error.is_some()
    }
}

} // verus!
