//! The wire codec in its two forms. Both write and read the same frames, so
//! what either form writes the other reads.
//!
//! `SyncHeteroCodec` is the blocking form: it writes whole frames and reads a
//! frame from a stream that is read to the end of what it needs.
//! `AsyncHeteroCodec` is the stream form: it is fed a buffer that grows as
//! chunks arrive, and takes a message off its front once a frame is complete.

use vstd::prelude::*;
use core::marker::PhantomData;
use crate::frame::{
    lemma_next_frame_complete,
    lemma_next_frame_partial,
    next_frame_len,
    spec_frame,
    spec_frame_fits,
    spec_next_frame,
    write_frame,
};
use crate::message::{ClientMessage, ServerMessage};
use crate::payload::{CodecError, Payload};
use vstd::slice::slice_subrange;

verus! {

/// The codec of a client: writes requests and reads events, blocking.
pub type ClientCodec = SyncHeteroCodec<ClientMessage, ServerMessage>;

/// The codec of the server: writes events and reads requests, on a stream.
pub type ServerCodec = AsyncHeteroCodec<ServerMessage, ClientMessage>;

/// What a codec finds at the front of a stream.
pub enum Decoded<V> {
    /// No whole frame is there yet.
    Incomplete,
    /// A frame with a well-formed payload: the message, and the length of the frame.
    Message { content: V, used: nat },
    /// A frame whose payload is no message, and the length of the frame.
    Malformed { used: nat },
}

/// The frame of a message, or `None` if its payload is too long for one.
pub open spec fn spec_encode<M: Payload>(content: M::V) -> Option<Seq<u8>> {
    if spec_frame_fits(M::spec_payload(content)) {
        Some(spec_frame(M::spec_payload(content)))
    } else {
        None
    }
}

/// What stands at the front of `buffer`, read as a frame that carries a
/// message of type `M`.
pub open spec fn spec_decode<M: Payload>(buffer: Seq<u8>) -> Decoded<M::V> {
    match spec_next_frame(buffer) {
        None => Decoded::Incomplete,
        Some(payload) => match M::spec_read(payload) {
            Some((content, _)) => Decoded::Message { content, used: 4 + payload.len() },
            None => Decoded::Malformed { used: 4 + payload.len() },
        },
    }
}

/// Round trip: the frame of any message that can be written decodes to that
/// message and takes exactly the bytes of the frame, whatever follows it in
/// the stream. It holds of both codec forms, since both are specified by
/// `spec_encode` and `spec_decode`.
pub proof fn lemma_decode_encode<M: Payload>(content: M::V, tail: Seq<u8>)
    requires
        M::spec_representable(content),
        spec_encode::<M>(content) is Some,
    ensures
        spec_decode::<M>(spec_encode::<M>(content).unwrap() + tail) == (Decoded::Message {
            content,
            used: spec_encode::<M>(content).unwrap().len(),
        }),
{
    let payload = M::spec_payload(content);
    lemma_next_frame_complete(payload, tail);
    M::lemma_round_trip(content, Seq::empty());
}

/// Partial frames: cut the frame of a message at any byte boundary. The first
/// part alone decodes to nothing; once the second part has arrived behind it
/// the buffer decodes to the message and is used up entirely.
pub proof fn lemma_decode_split<M: Payload>(content: M::V, k: int)
    requires
        M::spec_representable(content),
        spec_encode::<M>(content) is Some,
        0 <= k < spec_encode::<M>(content).unwrap().len(),
    ensures
        ({
            let frame = spec_encode::<M>(content).unwrap();
            &&& spec_decode::<M>(frame.take(k)) == Decoded::<M::V>::Incomplete
            &&& spec_decode::<M>(frame.take(k) + frame.skip(k)) == (Decoded::Message {
                content,
                used: frame.len(),
            })
        }),
{
    let frame = spec_encode::<M>(content).unwrap();
    lemma_next_frame_partial(M::spec_payload(content), k);
    lemma_decode_encode::<M>(content, Seq::empty());
    assert(frame.take(k) + frame.skip(k) =~= frame);
}

/// The blocking form of the codec: writes messages of type `T`, reads
/// messages of type `U`.
pub struct SyncHeteroCodec<T, U> {
    _t: PhantomData<T>,
    _u: PhantomData<U>,
}

impl<T, U> SyncHeteroCodec<T, U> {
    /// A codec. It keeps no state between calls.
    pub fn new() -> (codec: Self) {
        Self { _t: PhantomData, _u: PhantomData }
    }
}

impl<T, U> Default for SyncHeteroCodec<T, U> {
    fn default() -> (codec: Self) {
        Self::new()
    }
}

impl<T: Payload, U: Payload> SyncHeteroCodec<T, U> {
    /// Writes the frame of `item` to the end of `dst`. A message whose
    /// payload is too long for a frame is refused and nothing is written.
    pub fn write(&self, item: &T, dst: &mut Vec<u8>) -> (r: Result<(), CodecError>)
        ensures
            T::spec_representable(item@),
            match spec_encode::<T>(item@) {
                Some(frame) => r is Ok && final(dst)@ == old(dst)@ + frame,
                None => r == Err::<(), CodecError>(CodecError::SerializationError) && final(dst)@
                    == old(dst)@,
            },
    {
        let mut payload: Vec<u8> = Vec::new();
        item.write_payload(&mut payload);
        if write_frame(payload.as_slice(), dst) {
            Ok(())
        } else {
            Err(CodecError::SerializationError)
        }
    }

    /// Reads one message from `src`, which holds what is left of a stream,
    /// and takes the bytes of its frame off the front. A stream that ends
    /// before the frame does is read to its end and the read fails.
    pub fn read(&self, src: &mut Vec<u8>) -> (r: Result<U, CodecError>)
        ensures
            match spec_decode::<U>(old(src)@) {
                Decoded::Incomplete => r == Err::<U, CodecError>(CodecError::UnexpectedEof)
                    && final(src)@ == Seq::<u8>::empty(),
                Decoded::Message { content, used } => r matches Ok(message) && message@ == content
                    && final(src)@ == old(src)@.skip(used as int),
                Decoded::Malformed { used } => r == Err::<U, CodecError>(
                    CodecError::DeserializationError,
                ) && final(src)@ == old(src)@.skip(used as int),
            },
    {
        match next_frame_len(src.as_slice()) {
            None => {
                src.clear();
                Err(CodecError::UnexpectedEof)
            },
            Some(len) => {
                let rest = src.split_off(4 + len);
                let payload = slice_subrange(src.as_slice(), 4, 4 + len);
                assert(payload@ =~= old(src)@.subrange(4, 4 + len));
                let r = self.read_payload(payload);
                *src = rest;
                r
            },
        }
    }

    /// Reads a message from the payload of a frame.
    pub fn read_payload(&self, payload: &[u8]) -> (r: Result<U, CodecError>)
        ensures
            match U::spec_read(payload@) {
                Some((content, _)) => r matches Ok(message) && message@ == content,
                None => r == Err::<U, CodecError>(CodecError::DeserializationError),
            },
    {
        U::read_payload(payload)
    }
}

/// The stream form of the codec: writes messages of type `T`, reads messages
/// of type `U`.
pub struct AsyncHeteroCodec<T, U> {
    _t: PhantomData<T>,
    _u: PhantomData<U>,
}

impl<T, U> AsyncHeteroCodec<T, U> {
    /// A codec. It keeps no state between calls: what has arrived and waits
    /// for the rest of its frame stays in the caller's buffer.
    pub fn new() -> (codec: Self) {
        Self { _t: PhantomData, _u: PhantomData }
    }
}

impl<T, U> Default for AsyncHeteroCodec<T, U> {
    fn default() -> (codec: Self) {
        Self::new()
    }
}

impl<T: Payload, U: Payload> AsyncHeteroCodec<T, U> {
    /// Writes the frame of `item` to the end of `dst`. A message whose
    /// payload is too long for a frame is refused and nothing is written.
    pub fn encode(&mut self, item: T, dst: &mut Vec<u8>) -> (r: Result<(), CodecError>)
        ensures
            T::spec_representable(item@),
            match spec_encode::<T>(item@) {
                Some(frame) => r is Ok && final(dst)@ == old(dst)@ + frame,
                None => r == Err::<(), CodecError>(CodecError::SerializationError) && final(dst)@
                    == old(dst)@,
            },
    {
        let mut payload: Vec<u8> = Vec::new();
        item.write_payload(&mut payload);
        if write_frame(payload.as_slice(), dst) {
            Ok(())
        } else {
            Err(CodecError::SerializationError)
        }
    }

    /// Takes one message off the front of `src`, the buffer of what has
    /// arrived and not been read yet. While the first frame is incomplete the
    /// buffer is left as it is and `Ok(None)` is returned. A complete frame
    /// leaves the buffer, whether or not its payload is a message; what
    /// follows the frame stays for the next call.
    pub fn decode(&mut self, src: &mut Vec<u8>) -> (r: Result<Option<U>, CodecError>)
        ensures
            match spec_decode::<U>(old(src)@) {
                Decoded::Incomplete => r matches Ok(None) && final(src)@ == old(src)@,
                Decoded::Message { content, used } => r matches Ok(Some(message)) && message@
                    == content && final(src)@ == old(src)@.skip(used as int),
                Decoded::Malformed { used } => r == Err::<Option<U>, CodecError>(
                    CodecError::DeserializationError,
                ) && final(src)@ == old(src)@.skip(used as int),
            },
    {
        match next_frame_len(src.as_slice()) {
            None => Ok(None),
            Some(len) => {
                let rest = src.split_off(4 + len);
                let payload = slice_subrange(src.as_slice(), 4, 4 + len);
                assert(payload@ =~= old(src)@.subrange(4, 4 + len));
                let r = U::read_payload(payload);
                *src = rest;
                match r {
                    Ok(message) => Ok(Some(message)),
                    Err(e) => Err(e),
                }
            },
        }
    }
}

} // verus!
