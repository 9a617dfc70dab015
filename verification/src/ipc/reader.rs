//! Reading a frame: the header in full, then as many bytes of payload as the
//! header states, no more and no fewer.

use crate::ipc::error::ClientError;
use crate::ipc::utils::{decode, frame, header, header_length, lemma_header_round_trip, HEADER_LEN};
use vstd::prelude::*;
use vstd::slice::{slice_subrange, slice_to_vec};

verus! {

/// Where the reading of a frame stands: the length of payload that the
/// header stated, once the header has been read.
pub struct FrameReader {
    expected: Option<u32>,
}

impl View for FrameReader {
    type V = Option<u32>;

    closed spec fn view(&self) -> Option<u32> {
        self.expected
    }
}

/// The number of bytes that a reader takes next: a header, or the payload
/// that the header stated.
pub open spec fn wanted_by(reader: Option<u32>) -> nat {
    match reader {
        None => 8,
        Some(length) => length as nat,
    }
}

/// The reader after `bytes` were handed to it. Bytes of another number than
/// it wanted leave it as it was.
pub open spec fn reader_after(reader: Option<u32>, bytes: Seq<u8>) -> Option<u32> {
    if bytes.len() != wanted_by(reader) {
        reader
    } else {
        match reader {
            None => Some(header_length(bytes) as u32),
            Some(_) => None,
        }
    }
}

/// What a reader makes of `bytes`: an error where they are not as many as it
/// wanted, nothing yet where they are a header, and the payload where they
/// are the payload.
pub open spec fn accepted(reader: Option<u32>, bytes: Seq<u8>) -> Result<
    Option<Seq<u8>>,
    ClientError,
> {
    if bytes.len() != wanted_by(reader) {
        Err(ClientError::Transport)
    } else {
        match reader {
            None => Ok(None),
            Some(_) => Ok(Some(bytes)),
        }
    }
}

/// The payload that a reader returned, or the error.
pub open spec fn accept_view(read: Result<Option<Vec<u8>>, ClientError>) -> Result<
    Option<Seq<u8>>,
    ClientError,
> {
    match read {
        Ok(Some(payload)) => Ok(Some(payload@)),
        Ok(None) => Ok(None),
        Err(error) => Err(error),
    }
}

/// The payload that was read, or the error.
pub open spec fn payload_result_view(read: Result<Vec<u8>, ClientError>) -> Result<
    Seq<u8>,
    ClientError,
> {
    match read {
        Ok(payload) => Ok(payload@),
        Err(error) => Err(error),
    }
}

/// What reading one frame gives of a peer that sent `stream` and no more: the
/// payload, where the stream holds a header and as many bytes after it as
/// the header states, and else an error.
pub open spec fn received(stream: Seq<u8>) -> Result<Seq<u8>, ClientError> {
    if stream.len() < 8 {
        Err(ClientError::Transport)
    } else if stream.len() - 8 < header_length(stream.take(8)) {
        Err(ClientError::Transport)
    } else {
        Ok(stream.subrange(8, 8 + header_length(stream.take(8))))
    }
}

impl FrameReader {
    /// A reader at the start of a frame.
    pub fn new() -> (reader: FrameReader)
        ensures
            reader@ is None,
    {
        FrameReader { expected: None }
    }

    /// The number of bytes that are to be read next, no more and no fewer.
    pub fn wanted(&self) -> (count: usize)
        ensures
            count == wanted_by(self@),
    {
        match self.expected {
            None => HEADER_LEN,
            Some(length) => length as usize,
        }
    }

    /// Takes the bytes that were read. A header makes the reader want the
    /// payload, and gives nothing yet; the payload is given back as the
    /// frame's payload, and the reader is at the start of the next frame.
    /// Bytes of another number than was wanted are an error: the stream ended
    /// inside the frame.
    pub fn accept(&mut self, bytes: &[u8]) -> (read: Result<Option<Vec<u8>>, ClientError>)
        ensures
            accept_view(read) == accepted(old(self)@, bytes@),
            final(self)@ == reader_after(old(self)@, bytes@),
    {
        if bytes.len() != self.wanted() {
            return Err(ClientError::Transport);
        }
        match self.expected {
            None => {
                let head: [u8; 8] = [
                    bytes[0],
                    bytes[1],
                    bytes[2],
                    bytes[3],
                    bytes[4],
                    bytes[5],
                    bytes[6],
                    bytes[7],
                ];
                self.expected = Some(decode(&head));
                Ok(None)
            },
            Some(_) => {
                self.expected = None;
                Ok(Some(slice_to_vec(bytes)))
            },
        }
    }
}

/// The part of `bytes` from `from` on, and of at most `count` bytes.
fn up_to(bytes: &[u8], from: usize, count: usize) -> (part: &[u8])
    requires
        from <= bytes@.len(),
    ensures
        part@ == bytes@.subrange(
            from as int,
            if bytes@.len() - from < count {
                bytes@.len() as int
            } else {
                from + count
            },
        ),
{
    let left: usize = bytes.len() - from;
    if left < count {
        slice_subrange(bytes, from, bytes.len())
    } else {
        slice_subrange(bytes, from, from + count)
    }
}

/// Reads one frame of a peer that sent `stream` and no more, and returns the
/// frame's payload. A stream that ends inside the header or inside the
/// payload is an error: no shorter payload is returned.
pub fn read_frame(stream: &[u8]) -> (payload: Result<Vec<u8>, ClientError>)
    ensures
        payload_result_view(payload) == received(stream@),
{
    let mut reader = FrameReader::new();
    let head = up_to(stream, 0, reader.wanted());
    match reader.accept(head) {
        Ok(_) => {},
        Err(error) => {
            return Err(error);
        },
    }
    let body = up_to(stream, HEADER_LEN, reader.wanted());
    match reader.accept(body) {
        Ok(Some(payload)) => Ok(payload),
        Ok(None) => Err(ClientError::Transport),
        Err(error) => Err(error),
    }
}

/// What is written as a frame is read as its payload, whatever follows the
/// frame in the stream.
pub proof fn lemma_frame_is_received(opcode: u32, payload: Seq<u8>, rest: Seq<u8>)
    requires
        payload.len() <= u32::MAX,
    ensures
        received(frame(opcode, payload) + rest) == Ok::<Seq<u8>, ClientError>(payload),
{
    let length = payload.len() as u32;
    let stream = frame(opcode, payload) + rest;
    lemma_header_round_trip(opcode, length);
    assert(stream.subrange(8, 8 + length) == payload);
}

/// A frame that is cut short is not read: where the stream ends before the
/// frame does, reading fails, and returns no part of the payload.
pub proof fn lemma_truncated_frame_is_refused(opcode: u32, payload: Seq<u8>, kept: int)
    requires
        payload.len() <= u32::MAX,
        0 <= kept < frame(opcode, payload).len(),
    ensures
        received(frame(opcode, payload).take(kept)) == Err::<Seq<u8>, ClientError>(
            ClientError::Transport,
        ),
{
    let length = payload.len() as u32;
    lemma_header_round_trip(opcode, length);
    if kept >= 8 {
    }
}

} // verus!
