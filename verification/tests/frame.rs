use messenger::fault::FramingError;
use messenger::frame::{decode_length_prefix, encode_length_prefix, MAX_PAYLOAD, PREFIX_SIZE};
use messenger::messenger::Messenger;
use messenger::stream::ByteStream;

#[test]
fn prefix_is_big_endian() {
    assert_eq!(encode_length_prefix(0), [0, 0, 0, 0]);
    assert_eq!(encode_length_prefix(1), [0, 0, 0, 1]);
    assert_eq!(encode_length_prefix(258), [0, 0, 1, 2]);
    assert_eq!(encode_length_prefix(0x0102_0304), [1, 2, 3, 4]);
    assert_eq!(encode_length_prefix(0xFF00_0000), [255, 0, 0, 0]);
    assert_eq!(encode_length_prefix(u32::MAX), [255, 255, 255, 255]);
}

#[test]
fn prefix_does_not_follow_the_host() {
    let size: u32 = 0x0A0B_0C0D;
    assert_eq!(encode_length_prefix(size), size.to_be_bytes());
    assert_eq!(decode_length_prefix(&size.to_be_bytes()), Ok(size));
}

#[test]
fn prefix_decodes_most_significant_first() {
    assert_eq!(decode_length_prefix(&[0, 0, 0, 0]), Ok(0));
    assert_eq!(decode_length_prefix(&[0, 0, 1, 2]), Ok(258));
    assert_eq!(decode_length_prefix(&[1, 2, 3, 4]), Ok(0x0102_0304));
    assert_eq!(decode_length_prefix(&[255, 255, 255, 255]), Ok(u32::MAX));
}

#[test]
fn prefix_round_trips() {
    let mut size: u32 = 1;
    let mut turns = 0;
    while turns < 64 {
        assert_eq!(decode_length_prefix(&encode_length_prefix(size)), Ok(size));
        assert_eq!(decode_length_prefix(&encode_length_prefix(size - 1)), Ok(size - 1));
        size = size.wrapping_mul(2_654_435_761).wrapping_add(12_345) | 1;
        turns += 1;
    }
    assert_eq!(decode_length_prefix(&encode_length_prefix(u32::MAX)), Ok(u32::MAX));
}

#[test]
fn prefix_reads_only_four_bytes() {
    assert_eq!(decode_length_prefix(&[0, 0, 0, 7, 9, 9, 9]), Ok(7));
}

#[test]
fn short_prefix_is_truncated() {
    assert_eq!(decode_length_prefix(&[]), Err(FramingError::Truncated));
    assert_eq!(decode_length_prefix(&[1]), Err(FramingError::Truncated));
    assert_eq!(decode_length_prefix(&[1, 2]), Err(FramingError::Truncated));
    assert_eq!(decode_length_prefix(&[1, 2, 3]), Err(FramingError::Truncated));
}

#[test]
fn prefix_width_is_four() {
    assert_eq!(PREFIX_SIZE, 4);
    assert_eq!(MAX_PAYLOAD as u64, 0xFFFF_FFFF);
    assert_eq!(encode_length_prefix(5).len(), PREFIX_SIZE);
}

#[test]
fn read_message_size_takes_the_prefix() {
    let mut stream = ByteStream::from_bytes(&[0, 0, 1, 0, 42, 43]);
    assert_eq!(Messenger::read_message_size(&mut stream), Ok(256));
    assert_eq!(stream.to_vec(), vec![42, 43]);
}

#[test]
fn read_message_size_on_short_stream_is_truncated() {
    let mut stream = ByteStream::from_bytes(&[0, 0, 1]);
    assert_eq!(Messenger::read_message_size(&mut stream), Err(FramingError::Truncated));
    assert_eq!(stream.available(), 0);
    let mut empty = ByteStream::new();
    assert_eq!(Messenger::read_message_size(&mut empty), Err(FramingError::Truncated));
}

#[test]
fn frame_is_prefix_then_payload() {
    let mut wire = ByteStream::new();
    assert_eq!(Messenger::send_message(&mut wire, &[10, 20, 30]), Ok(()));
    assert_eq!(wire.to_vec(), vec![0, 0, 0, 3, 10, 20, 30]);
}

#[test]
fn empty_frame_is_four_zero_bytes() {
    let mut wire = ByteStream::new();
    assert_eq!(Messenger::send_message(&mut wire, &[]), Ok(()));
    assert_eq!(wire.to_vec(), vec![0, 0, 0, 0]);
    assert_eq!(Messenger::recv_message(&mut wire), Ok(Vec::new()));
    assert_eq!(wire.available(), 0);
}

#[test]
fn frame_round_trips() {
    let mut payload: Vec<u8> = Vec::new();
    let mut i: u32 = 0;
    while i < 700 {
        payload.push((i * 7 + 3) as u8);
        i += 1;
    }
    let mut wire = ByteStream::new();
    assert_eq!(Messenger::send_message(&mut wire, &payload), Ok(()));
    assert_eq!(wire.available(), 704);
    assert_eq!(&wire.to_vec()[..4], &[0, 0, 2, 188]);
    assert_eq!(Messenger::recv_message(&mut wire), Ok(payload));
    assert_eq!(wire.available(), 0);
}

#[test]
fn frames_are_read_in_the_order_written() {
    let mut wire = ByteStream::new();
    assert_eq!(Messenger::send_message(&mut wire, b"first"), Ok(()));
    assert_eq!(Messenger::send_message(&mut wire, b""), Ok(()));
    assert_eq!(Messenger::send_message(&mut wire, b"third"), Ok(()));
    assert_eq!(Messenger::recv_message(&mut wire), Ok(b"first".to_vec()));
    assert_eq!(Messenger::recv_message(&mut wire), Ok(Vec::new()));
    assert_eq!(Messenger::recv_message(&mut wire), Ok(b"third".to_vec()));
    assert_eq!(Messenger::recv_message(&mut wire), Err(FramingError::Truncated));
}

#[test]
fn frame_leaves_what_follows() {
    let mut wire = ByteStream::from_bytes(&[0, 0, 0, 2, 7, 8, 0, 0]);
    assert_eq!(Messenger::recv_message(&mut wire), Ok(vec![7, 8]));
    assert_eq!(wire.to_vec(), vec![0, 0]);
}

#[test]
fn frame_with_short_prefix_is_truncated() {
    let mut wire = ByteStream::from_bytes(&[0, 0, 0]);
    assert_eq!(Messenger::recv_message(&mut wire), Err(FramingError::Truncated));
    assert_eq!(wire.available(), 0);
}

#[test]
fn frame_with_short_payload_is_truncated() {
    let mut wire = ByteStream::from_bytes(&[0, 0, 0, 5, 1, 2, 3, 4]);
    assert_eq!(Messenger::recv_message(&mut wire), Err(FramingError::Truncated));
    assert_eq!(wire.available(), 0);
}

#[test]
fn every_cut_of_a_frame_is_truncated() {
    let mut whole = ByteStream::new();
    assert_eq!(Messenger::send_message(&mut whole, &[9, 8, 7, 6, 5]), Ok(()));
    let bytes = whole.to_vec();
    let mut kept = 0;
    while kept < bytes.len() {
        let mut cut = ByteStream::from_bytes(&bytes[..kept]);
        assert_eq!(Messenger::recv_message(&mut cut), Err(FramingError::Truncated));
        kept += 1;
    }
    assert_eq!(Messenger::recv_message(&mut whole), Ok(vec![9, 8, 7, 6, 5]));
}

#[test]
fn only_transport_failures_are_fatal() {
    assert!(FramingError::Io.is_fatal());
    assert!(!FramingError::Truncated.is_fatal());
    assert!(!FramingError::Oversized.is_fatal());
}
