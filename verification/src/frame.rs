//! The length prefix of a frame: four bytes, most significant first.

use vstd::prelude::*;
use crate::fault::FramingError;

verus! {

/// Number of bytes in the length prefix.
pub const PREFIX_SIZE: usize = 4;

/// Largest payload length that the prefix can declare.
pub const MAX_PAYLOAD: usize = 0xFFFF_FFFF;

/// The number that `bytes` spell when read as base-256 digits, most
/// significant first.
pub open spec fn be_value(bytes: Seq<u8>) -> nat
    decreases bytes.len(),
{
    if bytes.len() == 0 {
        0
    } else {
        be_value(bytes.drop_last()) * 256 + bytes.last() as nat
    }
}

/// The four prefix bytes that declare `size`.
pub open spec fn prefix_of(size: u32) -> Seq<u8> {
    seq![
        (size / 0x100_0000) as u8,
        (size / 0x1_0000 % 0x100) as u8,
        (size / 0x100 % 0x100) as u8,
        (size % 0x100) as u8,
    ]
}

/// The length that the first four bytes of `bytes` declare.
pub open spec fn prefix_value(bytes: Seq<u8>) -> nat
    recommends
        bytes.len() >= PREFIX_SIZE,
{
    be_value(bytes.take(PREFIX_SIZE as int))
}

/// Fewer than five bytes spell a number below the power of 256 that their
/// count gives.
pub proof fn lemma_be_value_bound(bytes: Seq<u8>)
    ensures
        bytes.len() == 0 ==> be_value(bytes) == 0,
        bytes.len() == 1 ==> be_value(bytes) < 0x100,
        bytes.len() == 2 ==> be_value(bytes) < 0x1_0000,
        bytes.len() == 3 ==> be_value(bytes) < 0x100_0000,
        bytes.len() == 4 ==> be_value(bytes) < 0x1_0000_0000,
    decreases bytes.len(),
{
    if bytes.len() > 0 {
        lemma_be_value_bound(bytes.drop_last());
    }
}


/// Four bytes spell their digits weighted by 256^3, 256^2, 256 and 1.
pub proof fn lemma_be_value_of_four(bytes: Seq<u8>)
    requires
        bytes.len() == 4,
    ensures
        be_value(bytes) == bytes[0] * 0x100_0000 + bytes[1] * 0x1_0000 + bytes[2] * 0x100
            + bytes[3],
        be_value(bytes) <= u32::MAX,
{
    let b3 = bytes.drop_last();
    let b2 = b3.drop_last();
    let b1 = b2.drop_last();
    assert(b1.drop_last().len() == 0);
    assert(be_value(b1.drop_last()) == 0);
    assert(be_value(b1) == bytes[0]);
    assert(be_value(b2) == bytes[0] * 256 + bytes[1]);
    assert(be_value(b3) == (bytes[0] * 256 + bytes[1]) * 256 + bytes[2]);
}

/// A number below 256^4 is the sum of its base-256 digits, each weighted by
/// its power of 256.
proof fn lemma_recompose(size: u32)
    by (bit_vector)
    ensures
        size / 0x100_0000 < 0x100,
        (size / 0x100_0000) * 0x100_0000 + (size / 0x1_0000 % 0x100) * 0x1_0000 + (size / 0x100
            % 0x100) * 0x100 + size % 0x100 == size,
{
}

/// Decoding the prefix of a length gives the length back.
pub proof fn lemma_prefix_round_trip(size: u32)
    ensures
        prefix_of(size).len() == PREFIX_SIZE,
        prefix_value(prefix_of(size)) == size,
{
    let p = prefix_of(size);
    assert(p.take(4) =~= p);
    lemma_be_value_of_four(p);
    lemma_recompose(size);
}

/// The base-256 digits of a number below 256^4 are its quotients and
/// remainders by the powers of 256.
proof fn lemma_digits(b0: u8, b1: u8, b2: u8, b3: u8)
    by (bit_vector)
    ensures
        (b0 * 0x100_0000 + b1 * 0x1_0000 + b2 * 0x100 + b3) / 0x100_0000 == b0,
        (b0 * 0x100_0000 + b1 * 0x1_0000 + b2 * 0x100 + b3) / 0x1_0000 % 0x100 == b1,
        (b0 * 0x100_0000 + b1 * 0x1_0000 + b2 * 0x100 + b3) / 0x100 % 0x100 == b2,
        (b0 * 0x100_0000 + b1 * 0x1_0000 + b2 * 0x100 + b3) % 0x100 == b3,
{
}

/// Encoding the length that four bytes declare gives the four bytes back.
pub proof fn lemma_prefix_is_canonical(bytes: Seq<u8>)
    requires
        bytes.len() == PREFIX_SIZE,
    ensures
        prefix_of(prefix_value(bytes) as u32) == bytes,
{
    assert(bytes.take(4) =~= bytes);
    lemma_be_value_of_four(bytes);
    lemma_digits(bytes[0], bytes[1], bytes[2], bytes[3]);
    assert(prefix_of(prefix_value(bytes) as u32) =~= bytes);
}

/// Writes `size` as four bytes, most significant first, whatever the byte
/// order of the host.
pub fn encode_length_prefix(size: u32) -> (bytes: [u8; 4])
    ensures
        bytes@ == prefix_of(size),
{
    let b0: u8 = (size >> 24) as u8;
    let b1: u8 = ((size >> 16) & 0xff) as u8;
    let b2: u8 = ((size >> 8) & 0xff) as u8;
    let b3: u8 = (size & 0xff) as u8;
    proof {
        assert(size >> 24 == size / 0x100_0000) by (bit_vector);
        assert((size >> 16) & 0xff == size / 0x1_0000 % 0x100) by (bit_vector);
        assert((size >> 8) & 0xff == size / 0x100 % 0x100) by (bit_vector);
        assert(size & 0xff == size % 0x100) by (bit_vector);
    }
    let bytes: [u8; 4] = [b0, b1, b2, b3];
    assert(bytes@ =~= prefix_of(size));
    bytes
}

/// Reads the length that the first four bytes of `bytes` declare, shifting
/// each byte in most significant first. Fails with `Truncated` when fewer than
/// four bytes are there.
pub fn decode_length_prefix(bytes: &[u8]) -> (size: Result<u32, FramingError>)
    ensures
        bytes@.len() < PREFIX_SIZE ==> size == Err::<u32, FramingError>(FramingError::Truncated),
        bytes@.len() >= PREFIX_SIZE ==> size == Ok::<u32, FramingError>(
            prefix_value(bytes@) as u32,
        ),
{
    if bytes.len() < PREFIX_SIZE {
        return Err(FramingError::Truncated);
    }
    let ghost head = bytes@.take(PREFIX_SIZE as int);
    let mut length: u32 = 0;
    let mut count: usize = 0;
    while count < PREFIX_SIZE
        invariant
            count <= PREFIX_SIZE <= bytes@.len(),
            head == bytes@.take(PREFIX_SIZE as int),
            length == be_value(head.take(count as int)),
            count < PREFIX_SIZE ==> length < 0x100_0000,
        decreases PREFIX_SIZE - count,
    {
        let byte: u8 = bytes[count];
        let shifted: u32 = (length << 8) | (byte as u32);
        proof {
            let old_length = length;
            assert(old_length < 0x100_0000 ==> (old_length << 8) | (byte as u32) == old_length * 256
                + byte) by (bit_vector);
            let next = head.take(count + 1);
            assert(next.drop_last() =~= head.take(count as int));
            assert(next.last() == byte);
            assert(be_value(next) == be_value(next.drop_last()) * 256 + byte);
            if count + 1 < PREFIX_SIZE {
                lemma_be_value_bound(next);
            }
        }
        length = shifted;
        count = count + 1;
    }
    proof {
        assert(head.take(PREFIX_SIZE as int) =~= head);
    }
    Ok(length)
}

/// The frame that carries `payload`: its length in four bytes, then the
/// payload itself.
pub open spec fn frame_of(payload: Seq<u8>) -> Seq<u8>
    recommends
        payload.len() <= MAX_PAYLOAD,
{
    prefix_of(payload.len() as u32) + payload
}

/// Whether `stream` starts with a whole frame: four prefix bytes and as many
/// payload bytes as they declare.
pub open spec fn holds_frame(stream: Seq<u8>) -> bool {
    stream.len() >= PREFIX_SIZE && stream.len() - PREFIX_SIZE >= prefix_value(stream)
}

/// The payload of the frame that `stream` starts with.
pub open spec fn first_payload(stream: Seq<u8>) -> Seq<u8>
    recommends
        holds_frame(stream),
{
    stream.subrange(PREFIX_SIZE as int, PREFIX_SIZE + prefix_value(stream))
}

/// What follows the frame that `stream` starts with.
pub open spec fn after_frame(stream: Seq<u8>) -> Seq<u8>
    recommends
        holds_frame(stream),
{
    stream.skip(PREFIX_SIZE + prefix_value(stream))
}

/// A frame that was written is read back as it was: a stream that starts with
/// the frame of `payload` yields `payload`, the empty one too, and is left
/// with what followed the frame.
pub proof fn lemma_frame_round_trip(payload: Seq<u8>, rest: Seq<u8>)
    requires
        payload.len() <= MAX_PAYLOAD,
    ensures
        holds_frame(frame_of(payload) + rest),
        first_payload(frame_of(payload) + rest) == payload,
        after_frame(frame_of(payload) + rest) == rest,
{
    let size = payload.len() as u32;
    let stream = frame_of(payload) + rest;
    lemma_prefix_round_trip(size);
    assert(stream.take(PREFIX_SIZE as int) =~= prefix_of(size));
    assert(prefix_of(size).take(PREFIX_SIZE as int) =~= prefix_of(size));
    assert(prefix_value(stream) == size);
    assert(first_payload(stream) =~= payload);
    assert(after_frame(stream) =~= rest);
}

/// A frame cut short is no frame: a stream that ends anywhere inside the
/// frame of `payload`, within the prefix or within the payload, does not hold
/// a whole frame.
pub proof fn lemma_cut_frame_is_truncated(payload: Seq<u8>, kept: int)
    requires
        payload.len() <= MAX_PAYLOAD,
        0 <= kept < frame_of(payload).len(),
    ensures
        !holds_frame(frame_of(payload).take(kept)),
{
    let size = payload.len() as u32;
    let cut = frame_of(payload).take(kept);
    if kept >= PREFIX_SIZE {
        lemma_prefix_round_trip(size);
        assert(cut.take(PREFIX_SIZE as int) =~= prefix_of(size));
        assert(prefix_of(size).take(PREFIX_SIZE as int) =~= prefix_of(size));
        assert(prefix_value(cut) == size);
    }
}


/// The bytes of the frames of `payloads`, one behind the other.
pub open spec fn frames_of(payloads: Seq<Seq<u8>>) -> Seq<u8>
    decreases payloads.len(),
{
    if payloads.len() == 0 {
        Seq::<u8>::empty()
    } else {
        frame_of(payloads.first()) + frames_of(payloads.drop_first())
    }
}

/// A frame written behind a run of frames makes the run one longer.
pub proof fn lemma_frame_joins_behind(payloads: Seq<Seq<u8>>, payload: Seq<u8>)
    ensures
        frames_of(payloads.push(payload)) == frames_of(payloads) + frame_of(payload),
    decreases payloads.len(),
{
    let longer = payloads.push(payload);
    if payloads.len() == 0 {
        assert(longer.drop_first() =~= Seq::<Seq<u8>>::empty());
        assert(frames_of(longer.drop_first()) =~= Seq::<u8>::empty());
        assert(frames_of(longer) =~= frame_of(payload));
        assert(frames_of(payloads) + frame_of(payload) =~= frame_of(payload));
    } else {
        lemma_frame_joins_behind(payloads.drop_first(), payload);
        assert(longer.drop_first() =~= payloads.drop_first().push(payload));
        assert(frames_of(longer) =~= frames_of(payloads) + frame_of(payload));
    }
}

/// Frames are read in the order in which they were written: a stream that
/// starts with a run of frames yields the payload of the first, and is left
/// with the run of the others.
pub proof fn lemma_frames_keep_their_order(payloads: Seq<Seq<u8>>, rest: Seq<u8>)
    requires
        payloads.len() > 0,
        payloads.first().len() <= MAX_PAYLOAD,
    ensures
        holds_frame(frames_of(payloads) + rest),
        first_payload(frames_of(payloads) + rest) == payloads.first(),
        after_frame(frames_of(payloads) + rest) == frames_of(payloads.drop_first()) + rest,
{
    let behind = frames_of(payloads.drop_first()) + rest;
    lemma_frame_round_trip(payloads.first(), behind);
    assert(frames_of(payloads) + rest =~= frame_of(payloads.first()) + behind);
}

} // verus!
