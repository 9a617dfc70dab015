//! The frame: a header of eight bytes, which holds the opcode and the length
//! of the payload as two little-endian numbers of 32 bits, and then the
//! payload.

use vstd::prelude::*;
use vstd::slice::slice_to_vec;

verus! {

/// The number of bytes in a header.
pub const HEADER_LEN: usize = 8;

/// The four bytes that hold `x`, least significant first.
pub open spec fn le_bytes(x: u32) -> Seq<u8> {
    seq![
        (x % 256) as u8,
        (x / 256 % 256) as u8,
        (x / 65536 % 256) as u8,
        (x / 16777216) as u8,
    ]
}

/// The number that the first four bytes of `bytes` hold, least significant
/// first.
pub open spec fn le_value(bytes: Seq<u8>) -> int {
    bytes[0] + 256 * bytes[1] + 65536 * bytes[2] + 16777216 * bytes[3]
}

/// The header of a frame with the given opcode and length of payload.
pub open spec fn header(opcode: u32, length: u32) -> Seq<u8> {
    le_bytes(opcode) + le_bytes(length)
}

/// The opcode that a header states.
pub open spec fn header_opcode(header: Seq<u8>) -> int {
    le_value(header.take(4))
}

/// The length of payload that a header states.
pub open spec fn header_length(header: Seq<u8>) -> int {
    le_value(header.skip(4))
}

/// The frame with the given opcode and payload, which is no longer than
/// `u32::MAX`.
pub open spec fn frame(opcode: u32, payload: Seq<u8>) -> Seq<u8>
    recommends
        payload.len() <= u32::MAX,
{
    header(opcode, payload.len() as u32) + payload
}

/// The frame with the given opcode and payload, where there is one: a header
/// cannot state a length over `u32::MAX`.
pub open spec fn checked_frame(opcode: u32, payload: Seq<u8>) -> Option<Seq<u8>> {
    if payload.len() <= u32::MAX {
        Some(frame(opcode, payload))
    } else {
        None
    }
}

/// The bytes of a buffer that may be absent.
pub open spec fn bytes_view(bytes: Option<Vec<u8>>) -> Option<Seq<u8>> {
    match bytes {
        Some(b) => Some(b@),
        None => None,
    }
}

/// The bytes of a payload that may be absent: none where it is.
pub open spec fn payload_view(payload: Option<&[u8]>) -> Seq<u8> {
    match payload {
        Some(bytes) => bytes@,
        None => seq![],
    }
}

/// The header of a frame with the given opcode and length of payload. It
/// states both: decoding it gives them back.
pub fn encode(opcode: u32, length: u32) -> (bytes: [u8; 8])
    ensures
        bytes@ == header(opcode, length),
        header_opcode(bytes@) == opcode,
        header_length(bytes@) == length,
{
    proof {
        lemma_header_round_trip(opcode, length);
    }
    let bytes: [u8; 8] = [
        (opcode % 256) as u8,
        (opcode / 256 % 256) as u8,
        (opcode / 65536 % 256) as u8,
        (opcode / 16777216) as u8,
        (length % 256) as u8,
        (length / 256 % 256) as u8,
        (length / 65536 % 256) as u8,
        (length / 16777216) as u8,
    ];
    bytes
}

/// The length of payload that `header` states.
pub fn decode(header: &[u8; 8]) -> (length: u32)
    ensures
        length == header_length(header@),
{
    let b0: u32 = header[4] as u32;
    let b1: u32 = header[5] as u32;
    let b2: u32 = header[6] as u32;
    let b3: u32 = header[7] as u32;
    b0 + 256 * b1 + 65536 * b2 + 16777216 * b3
}

/// The opcode that `header` states.
pub fn decode_opcode(header: &[u8; 8]) -> (opcode: u32)
    ensures
        opcode == header_opcode(header@),
{
    let b0: u32 = header[0] as u32;
    let b1: u32 = header[1] as u32;
    let b2: u32 = header[2] as u32;
    let b3: u32 = header[3] as u32;
    b0 + 256 * b1 + 65536 * b2 + 16777216 * b3
}

/// The four bytes of a number hold that number.
pub proof fn lemma_le_round_trip(x: u32)
    ensures
        le_bytes(x).len() == 4,
        le_value(le_bytes(x)) == x,
{
}

/// A header states the opcode and the length that it was made from: decoding
/// what was encoded gives the length back, and the opcode too.
pub proof fn lemma_header_round_trip(opcode: u32, length: u32)
    ensures
        header(opcode, length).len() == 8,
        header_length(header(opcode, length)) == length,
        header_opcode(header(opcode, length)) == opcode,
{
    lemma_le_round_trip(opcode);
    lemma_le_round_trip(length);
}

/// A frame is its header and then its payload, and the header states the
/// opcode and the exact length of the payload.
pub proof fn lemma_frame_states_its_payload(opcode: u32, payload: Seq<u8>)
    requires
        payload.len() <= u32::MAX,
    ensures
        frame(opcode, payload).len() == 8 + payload.len(),
        header_opcode(frame(opcode, payload).take(8)) == opcode,
        header_length(frame(opcode, payload).take(8)) == payload.len(),
        frame(opcode, payload).skip(8) == payload,
{
    lemma_header_round_trip(opcode, payload.len() as u32);
    assert(frame(opcode, payload).take(8) == header(opcode, payload.len() as u32));
}

/// Four bytes are the bytes of the number that they hold.
pub proof fn lemma_le_bytes_of_value(bytes: Seq<u8>)
    requires
        bytes.len() == 4,
    ensures
        0 <= le_value(bytes) <= u32::MAX,
        le_bytes(le_value(bytes) as u32) == bytes,
{
    let b0 = bytes[0] as int;
    let b1 = bytes[1] as int;
    let b2 = bytes[2] as int;
    let b3 = bytes[3] as int;
    let v = b0 + 256 * b1 + 65536 * b2 + 16777216 * b3;
    assert(v % 256 == b0);
    assert(v / 256 == b1 + 256 * b2 + 65536 * b3);
    assert(v / 65536 == b2 + 256 * b3);
    assert(v / 16777216 == b3);
    assert(le_bytes(v as u32) =~= bytes);
}

/// Eight bytes are the header of the opcode and length that they state: no
/// two headers state the same.
pub proof fn lemma_header_of_decoded(bytes: Seq<u8>)
    requires
        bytes.len() == 8,
    ensures
        0 <= header_opcode(bytes) <= u32::MAX,
        0 <= header_length(bytes) <= u32::MAX,
        header(header_opcode(bytes) as u32, header_length(bytes) as u32) == bytes,
{
    lemma_le_bytes_of_value(bytes.take(4));
    lemma_le_bytes_of_value(bytes.skip(4));
}

/// The header of a frame with the given opcode and length of payload, as a
/// buffer that can grow.
pub fn header_bytes(opcode: u32, length: u32) -> (bytes: Vec<u8>)
    ensures
        bytes@ == header(opcode, length),
{
    let head = encode(opcode, length);
    slice_to_vec(head.as_slice())
}

/// The length that a header states for a payload of `length` bytes; none
/// where the payload is longer than a header can state.
pub fn payload_length(length: usize) -> (stated: Option<u32>)
    ensures
        stated == if length <= u32::MAX {
            Some(length as u32)
        } else {
            None
        },
{
    if length > u32::MAX as usize {
        None
    } else {
        Some(length as u32)
    }
}

/// The frame with the given opcode and payload, to be written in full; none
/// where the payload is longer than a header can state.
pub fn frame_of(opcode: u32, payload: Option<&[u8]>) -> (bytes: Option<Vec<u8>>)
    ensures
        bytes_view(bytes) == checked_frame(opcode, payload_view(payload)),
{
    match payload {
        Some(body) => {
            let length = match payload_length(body.len()) {
                Some(length) => length,
                None => {
                    return None;
                },
            };
            let mut bytes = header_bytes(opcode, length);
            let ghost head = bytes@;
            let mut j: usize = 0;
            while j < body.len()
                invariant
                    j <= body@.len(),
                    bytes@ == head + body@.take(j as int),
                decreases body.len() - j,
            {
                bytes.push(body[j]);
                j += 1;
            }
            Some(bytes)
        },
        None => Some(header_bytes(opcode, 0)),
    }
}

} // verus!
