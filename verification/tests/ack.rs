use capnp::message::ReaderOptions;
use capnp::private::layout::{PointerBuilder, PointerReader, StructBuilder, StructReader, StructSize};
use capnp::traits::{FromPointerBuilder, FromPointerReader};

use messenger::ack::{Builder, NotInSchema, Reader, Status};
use messenger::messenger::Messenger;
use messenger::stream::ByteStream;

const ACK_SIZE: StructSize = StructSize { data: 2, pointers: 1 };
const ERROR_SIZE: StructSize = StructSize { data: 2, pointers: 1 };

struct AckWords<'a>(StructBuilder<'a>);

impl<'a> FromPointerBuilder<'a> for AckWords<'a> {
    fn init_pointer(builder: PointerBuilder<'a>, _length: u32) -> Self {
        AckWords(builder.init_struct(ACK_SIZE))
    }

    fn get_from_pointer(
        builder: PointerBuilder<'a>,
        default: Option<&'a [capnp::Word]>,
    ) -> capnp::Result<Self> {
        Ok(AckWords(builder.get_struct(ACK_SIZE, default)?))
    }
}

struct AckWordsRead<'a>(StructReader<'a>);

impl<'a> FromPointerReader<'a> for AckWordsRead<'a> {
    fn get_from_pointer(
        reader: &PointerReader<'a>,
        default: Option<&'a [capnp::Word]>,
    ) -> capnp::Result<Self> {
        Ok(AckWordsRead(reader.get_struct(default)?))
    }
}

fn status_number(ack: &Reader) -> u16 {
    match ack.get_status() {
        Ok(status) => status.to_u16(),
        Err(NotInSchema(number)) => number,
    }
}

fn encode(ack: &Reader) -> Vec<u8> {
    let mut message = capnp::message::Builder::new_default();
    {
        let mut root: AckWords = message.init_root();
        root.0.set_data_field::<u64>(0, ack.get_message_id());
        root.0.set_data_field::<u16>(4, status_number(ack));
        if ack.has_error() {
            let record = ack.get_error();
            let mut error = root.0.reborrow().get_pointer_field(0).init_struct(ERROR_SIZE);
            error.set_data_field::<u32>(0, record.get_code());
            error.set_data_field::<u64>(1, record.get_blame_id());
            let mut text = error.reborrow().get_pointer_field(0);
            text.set_text(record.get_message().into());
        }
    }
    capnp::serialize::write_message_to_words(&message)
}

fn decode(bytes: &[u8]) -> capnp::Result<Reader> {
    let message = capnp::serialize::read_message(bytes, ReaderOptions::new())?;
    let root: AckWordsRead = message.get_root()?;
    let pointer = root.0.get_pointer_field(0);
    let error = if pointer.is_null() {
        None
    } else {
        let record = pointer.get_struct(None)?;
        let text = match record.get_pointer_field(0).get_text(None)?.to_string() {
            Ok(text) => text,
            Err(_) => return Err(capnp::Error::failed(String::from("text is not UTF-8"))),
        };
        Some(messenger::error::Reader::new(
            record.get_data_field::<u32>(0),
            text,
            record.get_data_field::<u64>(1),
        ))
    };
    Ok(Reader::new(
        root.0.get_data_field::<u64>(0),
        root.0.get_data_field::<u16>(4),
        error,
    ))
}

fn failure() -> Reader {
    let mut ack = Builder::new();
    ack.set_message_id(123);
    ack.set_status(Status::Failure);
    {
        let error = ack.init_error();
        error.set_code(3);
        error.set_message("Error test string");
        error.set_blame_id(543);
    }
    ack.as_reader()
}

#[test]
fn status_numbers() {
    assert_eq!(Status::Success.to_u16(), 0);
    assert_eq!(Status::Resend.to_u16(), 1);
    assert_eq!(Status::Failure.to_u16(), 2);
    assert_eq!(Status::from_u16(0), Ok(Status::Success));
    assert_eq!(Status::from_u16(1), Ok(Status::Resend));
    assert_eq!(Status::from_u16(2), Ok(Status::Failure));
}

#[test]
fn status_number_out_of_schema() {
    assert_eq!(Status::from_u16(3), Err(NotInSchema(3)));
    assert_eq!(Status::from_u16(255), Err(NotInSchema(255)));
    assert_eq!(Status::from_u16(u16::MAX), Err(NotInSchema(u16::MAX)));
}

#[test]
fn status_survives_its_number() {
    for status in [Status::Success, Status::Resend, Status::Failure] {
        assert_eq!(Status::from_u16(status.to_u16()), Ok(status));
    }
    let mut number: u16 = 0;
    while number < 300 {
        match Status::from_u16(number) {
            Ok(status) => {
                assert!(number <= 2);
                assert_eq!(status.to_u16(), number);
            }
            Err(NotInSchema(unknown)) => {
                assert!(number > 2);
                assert_eq!(unknown, number);
            }
        }
        number += 1;
    }
}

#[test]
fn new_builder_is_empty() {
    let ack = Builder::new();
    assert_eq!(ack.get_message_id(), 0);
    assert_eq!(ack.get_status(), Ok(Status::Success));
    assert!(!ack.has_error());
    let reader = ack.as_reader();
    assert_eq!(reader.get_message_id(), 0);
    assert_eq!(reader.get_status(), Ok(Status::Success));
    assert!(!reader.has_error());
    assert!(reader.is_consistent());
}

#[test]
fn builder_setters_are_read_back() {
    let mut ack = Builder::new();
    ack.set_message_id(u64::MAX);
    ack.set_status(Status::Resend);
    assert_eq!(ack.get_message_id(), u64::MAX);
    assert_eq!(ack.get_status(), Ok(Status::Resend));
    ack.set_message_id(7);
    assert_eq!(ack.get_message_id(), 7);
    assert_eq!(ack.get_status(), Ok(Status::Resend));
    assert!(!ack.has_error());
}

#[test]
fn init_error_sets_an_empty_record() {
    let mut ack = Builder::new();
    {
        let error = ack.init_error();
        assert_eq!(error.get_code(), 0);
        assert_eq!(error.get_message(), "");
        assert_eq!(error.get_blame_id(), 0);
        error.set_code(9);
    }
    assert!(ack.has_error());
    assert_eq!(ack.get_error().get_code(), 9);
    {
        let again = ack.init_error();
        assert_eq!(again.get_code(), 0);
    }
    assert!(ack.has_error());
}

#[test]
fn get_error_on_a_builder_sets_the_record() {
    let mut ack = Builder::new();
    assert!(!ack.has_error());
    ack.get_error().set_blame_id(5);
    assert!(ack.has_error());
    ack.get_error().set_code(6);
    let reader = ack.as_reader();
    assert_eq!(reader.get_error().get_blame_id(), 5);
    assert_eq!(reader.get_error().get_code(), 6);
}

#[test]
fn set_error_copies_the_record() {
    let record = messenger::error::Reader::new(3, String::from("Error test string"), 543);
    let mut ack = Builder::new();
    ack.set_error(&record);
    assert!(ack.has_error());
    let reader = ack.as_reader();
    assert_eq!(reader.get_error(), record);
}

#[test]
fn borrowed_builder_writes_through() {
    let mut ack = Builder::new();
    {
        let lent = ack.borrow();
        lent.set_message_id(31);
        lent.set_status(Status::Failure);
    }
    assert_eq!(ack.get_message_id(), 31);
    assert_eq!(ack.get_status(), Ok(Status::Failure));
}

#[test]
fn reader_without_error_gives_the_empty_record() {
    let reader = Reader::new(1, 0, None);
    assert!(!reader.has_error());
    let record = reader.get_error();
    assert_eq!(record.get_code(), 0);
    assert_eq!(record.get_message(), "");
    assert_eq!(record.get_blame_id(), 0);
    assert_eq!(reader.borrow().get_message_id(), 1);
}

#[test]
fn reader_keeps_an_unknown_status_number() {
    let reader = Reader::new(1, 9, None);
    assert_eq!(reader.get_status(), Err(NotInSchema(9)));
    assert!(reader.is_consistent());
}

#[test]
fn error_goes_with_failure() {
    assert!(failure().is_consistent());
    assert!(Reader::new(1, 0, None).is_consistent());
    assert!(Reader::new(1, 1, None).is_consistent());
    assert!(!Reader::new(1, 2, None).is_consistent());
    let record = messenger::error::Reader::new(1, String::new(), 1);
    assert!(!Reader::new(1, 0, Some(record.clone())).is_consistent());
    assert!(!Reader::new(1, 7, Some(record.clone())).is_consistent());
    assert!(Reader::new(1, 2, Some(record)).is_consistent());
}

#[test]
fn error_record_fields() {
    let mut record = messenger::error::Builder::new();
    record.set_code(u32::MAX);
    record.set_message("spent");
    record.set_blame_id(u64::MAX);
    assert_eq!(record.get_code(), u32::MAX);
    assert_eq!(record.get_message(), "spent");
    assert_eq!(record.get_blame_id(), u64::MAX);
    record.set_message("");
    let reader = record.as_reader();
    assert_eq!(reader.get_code(), u32::MAX);
    assert_eq!(reader.get_message(), "");
    assert_eq!(reader.get_blame_id(), u64::MAX);
    assert_eq!(reader.clone_record(), reader);
}

#[test]
fn failure_acknowledgment_round_trips() {
    let ack = failure();
    let mut wire = ByteStream::new();
    assert_eq!(Messenger::send_message(&mut wire, &encode(&ack)), Ok(()));
    let payload = Messenger::recv_message(&mut wire).unwrap();
    let decoded = decode(&payload).unwrap();
    assert_eq!(decoded, ack);
    assert_eq!(decoded.get_message_id(), 123);
    assert_eq!(decoded.get_status(), Ok(Status::Failure));
    assert!(decoded.has_error());
    let error = decoded.get_error();
    assert_eq!(error.get_code(), 3);
    assert_eq!(error.get_message(), "Error test string");
    assert_eq!(error.get_blame_id(), 543);
}

#[test]
fn success_acknowledgment_round_trips() {
    let mut ack = Builder::new();
    ack.set_message_id(u64::MAX - 1);
    ack.set_status(Status::Success);
    let ack = ack.as_reader();
    let decoded = decode(&encode(&ack)).unwrap();
    assert_eq!(decoded, ack);
    assert!(!decoded.has_error());
    assert_eq!(decoded.get_status(), Ok(Status::Success));
}

#[test]
fn cut_acknowledgment_frame_is_truncated() {
    let mut whole = ByteStream::new();
    assert_eq!(Messenger::send_message(&mut whole, &encode(&failure())), Ok(()));
    let bytes = whole.to_vec();
    let mut cut = ByteStream::from_bytes(&bytes[..bytes.len() - 1]);
    assert!(Messenger::recv_message(&mut cut).is_err());
}
