//! Frames: the unit of the wire protocol. A frame is the length of its
//! payload as a 32-bit big-endian number, followed by the payload.

use vstd::prelude::*;
use crate::wire::{
    lemma_read_u32_be,
    put_bytes,
    put_u32_be,
    read_u32_be,
    spec_read_u32_be,
    spec_u32_be_bytes,
    u32_from_parts,
};

verus! {

/// Whether a payload is short enough for the length prefix of a frame.
pub open spec fn spec_frame_fits(payload: Seq<u8>) -> bool {
    payload.len() <= u32::MAX
}

/// The frame that carries `payload`.
pub open spec fn spec_frame(payload: Seq<u8>) -> Seq<u8> {
    spec_u32_be_bytes(payload.len() as u32) + payload
}

/// The payload of the frame at the front of `buffer`, or `None` while the
/// length prefix or the payload it announces is not yet there in full.
pub open spec fn spec_next_frame(buffer: Seq<u8>) -> Option<Seq<u8>> {
    match spec_read_u32_be(buffer) {
        None => None,
        Some((len, _)) => if buffer.len() - 4 < len {
            None
        } else {
            Some(buffer.subrange(4, 4 + len))
        },
    }
}

/// A buffer that starts with a whole frame yields that frame's payload,
/// whatever follows the frame.
pub proof fn lemma_next_frame_complete(payload: Seq<u8>, tail: Seq<u8>)
    requires
        spec_frame_fits(payload),
    ensures
        spec_frame(payload).len() == 4 + payload.len(),
        spec_next_frame(spec_frame(payload) + tail) == Some(payload),
{
    lemma_read_u32_be(payload.len() as u32, payload + tail);
}

/// A buffer that holds only the first `k` bytes of a frame, for any `k` short
/// of the whole, yields nothing.
pub proof fn lemma_next_frame_partial(payload: Seq<u8>, k: int)
    requires
        spec_frame_fits(payload),
        0 <= k < spec_frame(payload).len(),
    ensures
        spec_next_frame(spec_frame(payload).take(k)) is None,
{
    let len = payload.len() as u32;
    let part = spec_frame(payload).take(k);
    lemma_read_u32_be(len, payload);
    if k >= 4 {
        let whole = spec_frame(payload);
        assert(part[0] == whole[0] && part[1] == whole[1] && part[2] == whole[2] && part[3]
            == whole[3]);
    }
}

/// Appends the frame that carries `payload` to `dst`, unless the payload is
/// too long for a frame; `dst` is then left as it was.
pub fn write_frame(payload: &[u8], dst: &mut Vec<u8>) -> (fits: bool)
    ensures
        fits == spec_frame_fits(payload@),
        fits ==> final(dst)@ == old(dst)@ + spec_frame(payload@),
        !fits ==> final(dst)@ == old(dst)@,
{
    if payload.len() > u32::MAX as usize {
        false
    } else {
        put_u32_be(dst, payload.len() as u32);
        put_bytes(dst, payload);
        true
    }
}

/// The payload length that a frame's length prefix announces.
pub fn payload_len(header: &[u8; 4]) -> (len: usize)
    ensures
        spec_read_u32_be(header@) == Some((len as u32, 4nat)),
        len <= u32::MAX,
{
    u32_from_parts(header[3], header[2], header[1], header[0]) as usize
}

/// The payload length of the frame at the front of `buffer`, if that frame is
/// there in full.
pub fn next_frame_len(buffer: &[u8]) -> (r: Option<usize>)
    ensures
        match spec_next_frame(buffer@) {
            Some(payload) => r matches Some(len) && len == payload.len() && 4 + len
                <= buffer@.len() <= usize::MAX,
            None => r is None,
        },
{
    match read_u32_be(buffer, 0) {
        None => None,
        Some(len) => {
            if len as usize > buffer.len() - 4 {
                None
            } else {
                Some(len as usize)
            }
        },
    }
}

} // verus!
