//! The error record that an acknowledgment of a failure carries.

use vstd::prelude::*;

verus! {

/// What an error record holds, as mathematical values.
pub struct ErrorView {
    /// Number of the failure.
    pub code: u32,
    /// Description of the failure.
    pub message: Seq<char>,
    /// Identifier of the entity at fault.
    pub blame_id: u64,
}

impl ErrorView {
    /// The record of a field that was never set: zeros and an empty text.
    pub open spec fn empty() -> ErrorView {
        ErrorView { code: 0, message: Seq::<char>::empty(), blame_id: 0 }
    }
}

/// An error record that can be read.
#[derive(Clone, Debug, PartialEq, Eq)]
pub struct Reader {
    code: u32,
    message: String,
    blame_id: u64,
}

impl View for Reader {
    type V = ErrorView;

    closed spec fn view(&self) -> ErrorView {
        ErrorView { code: self.code, message: self.message@, blame_id: self.blame_id }
    }
}

impl Reader {
    /// A record with the given fields.
    pub fn new(code: u32, message: String, blame_id: u64) -> (reader: Reader)
        ensures
            reader@ == (ErrorView { code, message: message@, blame_id }),
    {
        Reader { code, message, blame_id }
    }

    /// A second record with the same fields.
    pub fn clone_record(&self) -> (reader: Reader)
        ensures
            reader@ == self@,
    {
        Reader { code: self.code, message: self.message.clone(), blame_id: self.blame_id }
    }

    /// Number of the failure.
    pub fn get_code(&self) -> (code: u32)
        ensures
            code == self@.code,
    {
        self.code
    }

    /// Description of the failure.
    pub fn get_message(&self) -> (message: &str)
        ensures
            message@ == self@.message,
    {
        self.message.as_str()
    }

    /// Identifier of the entity at fault.
    pub fn get_blame_id(&self) -> (blame_id: u64)
        ensures
            blame_id == self@.blame_id,
    {
        self.blame_id
    }
}

/// An error record under construction.
#[derive(Debug)]
pub struct Builder {
    code: u32,
    message: String,
    blame_id: u64,
}

impl View for Builder {
    type V = ErrorView;

    closed spec fn view(&self) -> ErrorView {
        ErrorView { code: self.code, message: self.message@, blame_id: self.blame_id }
    }
}

impl Builder {
    /// A record with no field set.
    pub fn new() -> (builder: Builder)
        ensures
            builder@ == ErrorView::empty(),
    {
        Builder { code: 0, message: String::new(), blame_id: 0 }
    }

    /// The record as it stands, for reading.
    pub fn as_reader(self) -> (reader: Reader)
        ensures
            reader@ == self@,
    {
        Reader { code: self.code, message: self.message, blame_id: self.blame_id }
    }

    /// Number of the failure.
    pub fn get_code(&self) -> (code: u32)
        ensures
            code == self@.code,
    {
        self.code
    }

    /// Sets the number of the failure.
    pub fn set_code(&mut self, value: u32)
        ensures
            final(self)@ == (ErrorView { code: value, ..old(self)@ }),
    {
        self.code = value;
    }

    /// Description of the failure.
    pub fn get_message(&self) -> (message: &str)
        ensures
            message@ == self@.message,
    {
        self.message.as_str()
    }

    /// Sets the description of the failure.
    pub fn set_message(&mut self, value: &str)
        ensures
            final(self)@ == (ErrorView { message: value@, ..old(self)@ }),
    {
        self.message = value.to_owned();
    }

    /// Identifier of the entity at fault.
    pub fn get_blame_id(&self) -> (blame_id: u64)
        ensures
            blame_id == self@.blame_id,
    {
        self.blame_id
    }

    /// Sets the identifier of the entity at fault.
    pub fn set_blame_id(&mut self, value: u64)
        ensures
            final(self)@ == (ErrorView { blame_id: value, ..old(self)@ }),
    {
        self.blame_id = value;
    }
}

} // verus!
