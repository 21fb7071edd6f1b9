//! Byte-level building blocks of the wire protocol: fixed-width integers,
//! length-prefixed text and lists of text.
//!
//! Every value has one encoding, given by a `spec_*_bytes` function, and every
//! reader is described by a `spec_read_*` function that returns the value found
//! at the front of a byte sequence together with the number of bytes it took.

use vstd::prelude::*;
use vstd::slice::{slice_subrange, slice_to_vec};
use vstd::utf8::{decode_utf8, encode_utf8, valid_utf8};

verus! {

/// Dropping a prefix from a concatenation leaves what was appended.
pub proof fn lemma_skip_prefix(front: Seq<u8>, back: Seq<u8>)
    ensures
        (front + back).skip(front.len() as int) == back,
{
}

/// Concatenation may be grouped either way.
pub proof fn lemma_concat_assoc(a: Seq<u8>, b: Seq<u8>, c: Seq<u8>)
    ensures
        (a + b) + c == a + (b + c),
{
}

/// The four bytes of `x`, least significant first.
#[verifier::opaque]
pub open spec fn spec_u32_le_bytes(x: u32) -> Seq<u8> {
    seq![
        (x % 256) as u8,
        ((x / 256) % 256) as u8,
        ((x / 65536) % 256) as u8,
        ((x / 16777216) % 256) as u8,
    ]
}

/// The four bytes of `x`, most significant first.
#[verifier::opaque]
pub open spec fn spec_u32_be_bytes(x: u32) -> Seq<u8> {
    seq![
        ((x / 16777216) % 256) as u8,
        ((x / 65536) % 256) as u8,
        ((x / 256) % 256) as u8,
        (x % 256) as u8,
    ]
}

/// The number whose bytes, from least to most significant, are `b0..b3`.
#[verifier::opaque]
pub open spec fn spec_u32_from_parts(b0: u8, b1: u8, b2: u8, b3: u8) -> u32 {
    (b0 as int + b1 as int * 256 + b2 as int * 65536 + b3 as int * 16777216) as u32
}

/// The eight bytes of `x`, least significant first.
pub open spec fn spec_u64_le_bytes(x: u64) -> Seq<u8> {
    spec_u32_le_bytes((x % 0x1_0000_0000) as u32) + spec_u32_le_bytes((x / 0x1_0000_0000) as u32)
}

/// The number made of a low and a high half of 32 bits each.
pub open spec fn spec_u64_from_halves(low: u32, high: u32) -> u64 {
    (low as int + high as int * 0x1_0000_0000) as u64
}

/// The little-endian number at the front of `bytes`, if four bytes are there.
pub open spec fn spec_read_u32_le(bytes: Seq<u8>) -> Option<(u32, nat)> {
    if bytes.len() < 4 {
        None
    } else {
        Some((spec_u32_from_parts(bytes[0], bytes[1], bytes[2], bytes[3]), 4))
    }
}

/// The big-endian number at the front of `bytes`, if four bytes are there.
pub open spec fn spec_read_u32_be(bytes: Seq<u8>) -> Option<(u32, nat)> {
    if bytes.len() < 4 {
        None
    } else {
        Some((spec_u32_from_parts(bytes[3], bytes[2], bytes[1], bytes[0]), 4))
    }
}

/// The little-endian number at the front of `bytes`, if eight bytes are there.
pub open spec fn spec_read_u64_le(bytes: Seq<u8>) -> Option<(u64, nat)> {
    if bytes.len() < 8 {
        None
    } else {
        Some(
            (
                spec_u64_from_halves(
                    spec_u32_from_parts(bytes[0], bytes[1], bytes[2], bytes[3]),
                    spec_u32_from_parts(bytes[4], bytes[5], bytes[6], bytes[7]),
                ),
                8,
            ),
        )
    }
}

/// Splitting a number into bytes and putting them together again gives the
/// number back.
pub proof fn lemma_u32_parts(x: u32)
    ensures
        spec_u32_from_parts(
            (x % 256) as u8,
            ((x / 256) % 256) as u8,
            ((x / 65536) % 256) as u8,
            ((x / 16777216) % 256) as u8,
        ) == x,
{
    reveal(spec_u32_from_parts);
}

/// A little-endian number is read back from its own bytes, whatever follows.
pub proof fn lemma_read_u32_le(x: u32, tail: Seq<u8>)
    ensures
        spec_u32_le_bytes(x).len() == 4,
        spec_read_u32_le(spec_u32_le_bytes(x) + tail) == Some((x, 4nat)),
{
    reveal(spec_u32_le_bytes);
    lemma_u32_parts(x);
}

/// A big-endian number is read back from its own bytes, whatever follows.
pub proof fn lemma_read_u32_be(x: u32, tail: Seq<u8>)
    ensures
        spec_u32_be_bytes(x).len() == 4,
        spec_read_u32_be(spec_u32_be_bytes(x) + tail) == Some((x, 4nat)),
{
    reveal(spec_u32_be_bytes);
    lemma_u32_parts(x);
}

/// A 64-bit little-endian number is read back from its own bytes, whatever
/// follows.
pub proof fn lemma_read_u64_le(x: u64, tail: Seq<u8>)
    ensures
        spec_u64_le_bytes(x).len() == 8,
        spec_read_u64_le(spec_u64_le_bytes(x) + tail) == Some((x, 8nat)),
{
    let low = (x % 0x1_0000_0000) as u32;
    let high = (x / 0x1_0000_0000) as u32;
    lemma_read_u32_le(low, spec_u32_le_bytes(high) + tail);
    lemma_read_u32_le(high, tail);
    let all = spec_u64_le_bytes(x) + tail;
    assert(all == spec_u32_le_bytes(low) + (spec_u32_le_bytes(high) + tail)) by {
        lemma_concat_assoc(spec_u32_le_bytes(low), spec_u32_le_bytes(high), tail);
    }
    assert(all.skip(4) == spec_u32_le_bytes(high) + tail) by {
        lemma_skip_prefix(spec_u32_le_bytes(low), spec_u32_le_bytes(high) + tail);
    }
    assert(all.skip(4)[0] == all[4] && all.skip(4)[1] == all[5] && all.skip(4)[2] == all[6]
        && all.skip(4)[3] == all[7]);
}

/// Appends the little-endian bytes of `x` to `dst`.
pub fn put_u32_le(dst: &mut Vec<u8>, x: u32)
    ensures
        final(dst)@ == old(dst)@ + spec_u32_le_bytes(x),
{
    proof {
        reveal(spec_u32_le_bytes);
    }
    dst.push((x % 256) as u8);
    dst.push(((x / 256) % 256) as u8);
    dst.push(((x / 65536) % 256) as u8);
    dst.push(((x / 16777216) % 256) as u8);
}

/// Appends the big-endian bytes of `x` to `dst`.
pub fn put_u32_be(dst: &mut Vec<u8>, x: u32)
    ensures
        final(dst)@ == old(dst)@ + spec_u32_be_bytes(x),
{
    proof {
        reveal(spec_u32_be_bytes);
    }
    dst.push(((x / 16777216) % 256) as u8);
    dst.push(((x / 65536) % 256) as u8);
    dst.push(((x / 256) % 256) as u8);
    dst.push((x % 256) as u8);
}

/// Appends the little-endian bytes of `x` to `dst`.
pub fn put_u64_le(dst: &mut Vec<u8>, x: u64)
    ensures
        final(dst)@ == old(dst)@ + spec_u64_le_bytes(x),
{
    put_u32_le(dst, (x % 0x1_0000_0000) as u32);
    put_u32_le(dst, (x / 0x1_0000_0000) as u32);
}

/// Puts four bytes together, `b0` being the least significant.
pub fn u32_from_parts(b0: u8, b1: u8, b2: u8, b3: u8) -> (x: u32)
    ensures
        x == spec_u32_from_parts(b0, b1, b2, b3),
{
    proof {
        reveal(spec_u32_from_parts);
    }
    let low: u32 = b0 as u32 + b1 as u32 * 256;
    let high: u32 = b2 as u32 + b3 as u32 * 256;
    low + high * 65536
}

/// Reads a little-endian number at `pos`, if four bytes are left there.
pub fn read_u32_le(src: &[u8], pos: usize) -> (r: Option<u32>)
    requires
        pos <= src@.len(),
    ensures
        r == match spec_read_u32_le(src@.skip(pos as int)) {
            Some((x, _)) => Some(x),
            None => None,
        },
{
    if src.len() - pos < 4 {
        None
    } else {
        Some(u32_from_parts(src[pos], src[pos + 1], src[pos + 2], src[pos + 3]))
    }
}

/// Reads a big-endian number at `pos`, if four bytes are left there.
pub fn read_u32_be(src: &[u8], pos: usize) -> (r: Option<u32>)
    requires
        pos <= src@.len(),
    ensures
        r == match spec_read_u32_be(src@.skip(pos as int)) {
            Some((x, _)) => Some(x),
            None => None,
        },
{
    if src.len() - pos < 4 {
        None
    } else {
        Some(u32_from_parts(src[pos + 3], src[pos + 2], src[pos + 1], src[pos]))
    }
}

/// Reads a 64-bit little-endian number at `pos`, if eight bytes are left there.
pub fn read_u64_le(src: &[u8], pos: usize) -> (r: Option<u64>)
    requires
        pos <= src@.len(),
    ensures
        r == match spec_read_u64_le(src@.skip(pos as int)) {
            Some((x, _)) => Some(x),
            None => None,
        },
{
    if src.len() - pos < 8 {
        None
    } else {
        let low = u32_from_parts(src[pos], src[pos + 1], src[pos + 2], src[pos + 3]);
        let high = u32_from_parts(src[pos + 4], src[pos + 5], src[pos + 6], src[pos + 7]);
        Some(low as u64 + high as u64 * 0x1_0000_0000)
    }
}

/// Whether the encoding of `text` is short enough for its length prefix.
pub open spec fn spec_text_fits(text: Seq<char>) -> bool {
    encode_utf8(text).len() <= u64::MAX
}

/// The bytes of a text: the length of its UTF-8 form as a 64-bit
/// little-endian number, then the UTF-8 form itself.
#[verifier::opaque]
pub open spec fn spec_text_bytes(text: Seq<char>) -> Seq<u8> {
    spec_u64_le_bytes(encode_utf8(text).len() as u64) + encode_utf8(text)
}

/// The text at the front of `bytes`: present if the length prefix is complete,
/// that many bytes follow it, and they are valid UTF-8.
#[verifier::opaque]
pub open spec fn spec_read_text(bytes: Seq<u8>) -> Option<(Seq<char>, nat)> {
    match spec_read_u64_le(bytes) {
        None => None,
        Some((len, _)) => {
            if bytes.len() - 8 < len {
                None
            } else if !valid_utf8(bytes.subrange(8, 8 + len)) {
                None
            } else {
                Some((decode_utf8(bytes.subrange(8, 8 + len)), (8 + len) as nat))
            }
        },
    }
}

/// Reading a text never uses more bytes than there are.
pub proof fn lemma_read_text_bound(bytes: Seq<u8>)
    ensures
        spec_read_text(bytes) matches Some((_, used)) ==> used <= bytes.len(),
{
    reveal(spec_read_text);
}

/// A text is read back from its own bytes, whatever follows.
pub proof fn lemma_read_text(text: Seq<char>, tail: Seq<u8>)
    requires
        spec_text_fits(text),
    ensures
        spec_read_text(spec_text_bytes(text) + tail) == Some(
            (text, spec_text_bytes(text).len()),
        ),
{
    reveal(spec_text_bytes);
    reveal(spec_read_text);
    let body = encode_utf8(text);
    let len = body.len() as u64;
    let all = spec_text_bytes(text) + tail;
    lemma_read_u64_le(len, body + tail);
    assert(all.subrange(8, 8 + len) =~= body);
    vstd::utf8::encode_utf8_valid_utf8(text);
    vstd::utf8::encode_utf8_decode_utf8(text);
}

/// The bytes of the items of a list of texts, one after another.
pub open spec fn spec_texts_bytes(texts: Seq<Seq<char>>) -> Seq<u8>
    decreases texts.len(),
{
    if texts.len() == 0 {
        Seq::empty()
    } else {
        spec_texts_bytes(texts.drop_last()) + spec_text_bytes(texts.last())
    }
}

/// The first `count` texts at the front of `bytes`, if all of them are there.
pub open spec fn spec_read_texts(bytes: Seq<u8>, count: nat) -> Option<(Seq<Seq<char>>, nat)>
    decreases count,
{
    if count == 0 {
        Some((Seq::empty(), 0))
    } else {
        match spec_read_texts(bytes, (count - 1) as nat) {
            None => None,
            Some((texts, used)) => match spec_read_text(bytes.skip(used as int)) {
                None => None,
                Some((text, n)) => Some((texts.push(text), used + n)),
            },
        }
    }
}

/// Whether every text of a list fits its length prefix, and the list its own.
pub open spec fn spec_text_list_fits(texts: Seq<Seq<char>>) -> bool {
    &&& texts.len() <= u64::MAX
    &&& forall|i: int| 0 <= i < texts.len() ==> spec_text_fits(#[trigger] texts[i])
}

/// The bytes of a list of texts: the number of items as a 64-bit
/// little-endian number, then each item in order.
pub open spec fn spec_text_list_bytes(texts: Seq<Seq<char>>) -> Seq<u8> {
    spec_u64_le_bytes(texts.len() as u64) + spec_texts_bytes(texts)
}

/// The list of texts at the front of `bytes`.
pub open spec fn spec_read_text_list(bytes: Seq<u8>) -> Option<(Seq<Seq<char>>, nat)> {
    match spec_read_u64_le(bytes) {
        None => None,
        Some((count, _)) => match spec_read_texts(bytes.skip(8), count as nat) {
            None => None,
            Some((texts, used)) => Some((texts, 8 + used)),
        },
    }
}

/// Reading never uses more bytes than there are.
pub proof fn lemma_read_texts_bound(bytes: Seq<u8>, count: nat)
    ensures
        spec_read_texts(bytes, count) matches Some((texts, used)) ==> used <= bytes.len()
            && texts.len() == count,
    decreases count,
{
    if count > 0 {
        lemma_read_texts_bound(bytes, (count - 1) as nat);
        if let Some((_, used)) = spec_read_texts(bytes, (count - 1) as nat) {
            lemma_read_text_bound(bytes.skip(used as int));
        }
    }
}

/// Once a text is missing, no longer list can be read either.
pub proof fn lemma_read_texts_stops(bytes: Seq<u8>, short: nat, count: nat)
    requires
        short <= count,
        spec_read_texts(bytes, short) is None,
    ensures
        spec_read_texts(bytes, count) is None,
    decreases count,
{
    if short < count {
        lemma_read_texts_stops(bytes, short, (count - 1) as nat);
    }
}

/// The items of a list are read back from their own bytes, whatever follows.
pub proof fn lemma_read_texts(texts: Seq<Seq<char>>, tail: Seq<u8>)
    requires
        forall|i: int| 0 <= i < texts.len() ==> spec_text_fits(#[trigger] texts[i]),
    ensures
        spec_read_texts(spec_texts_bytes(texts) + tail, texts.len()) == Some(
            (texts, spec_texts_bytes(texts).len()),
        ),
    decreases texts.len(),
{
    if texts.len() > 0 {
        let front = texts.drop_last();
        let last = texts.last();
        let all = spec_texts_bytes(texts) + tail;
        lemma_read_texts(front, spec_text_bytes(last) + tail);
        assert(all =~= spec_texts_bytes(front) + (spec_text_bytes(last) + tail));
        let used = spec_texts_bytes(front).len();
        assert(all.skip(used as int) =~= spec_text_bytes(last) + tail);
        lemma_read_text(last, tail);
    }
}

/// A list of texts is read back from its own bytes, whatever follows.
pub proof fn lemma_read_text_list(texts: Seq<Seq<char>>, tail: Seq<u8>)
    requires
        spec_text_list_fits(texts),
    ensures
        spec_read_text_list(spec_text_list_bytes(texts) + tail) == Some(
            (texts, spec_text_list_bytes(texts).len()),
        ),
{
    let count = texts.len() as u64;
    let all = spec_text_list_bytes(texts) + tail;
    lemma_read_u64_le(count, spec_texts_bytes(texts) + tail);
    assert(all.skip(8) =~= spec_texts_bytes(texts) + tail);
    lemma_read_texts(texts, tail);
}

/// Appends `bytes` to `dst`.
pub fn put_bytes(dst: &mut Vec<u8>, bytes: &[u8])
    ensures
        final(dst)@ == old(dst)@ + bytes@,
{
    let mut i: usize = 0;
    while i < bytes.len()
        invariant
            i <= bytes@.len(),
            dst@ == old(dst)@ + bytes@.take(i as int),
        decreases bytes@.len() - i,
    {
        dst.push(bytes[i]);
        i += 1;
    }
}

/// Appends the bytes of `text` to `dst`.
pub fn put_text(dst: &mut Vec<u8>, text: &str)
    ensures
        spec_text_fits(text@),
        final(dst)@ == old(dst)@ + spec_text_bytes(text@),
{
    proof {
        reveal(spec_text_bytes);
    }
    let body = text.as_bytes();
    put_u64_le(dst, body.len() as u64);
    put_bytes(dst, body);
}

/// Appends the bytes of a list of texts to `dst`.
pub fn put_text_list(dst: &mut Vec<u8>, texts: &Vec<String>)
    ensures
        spec_text_list_fits(crate::message::strings_view(texts@)),
        final(dst)@ == old(dst)@ + spec_text_list_bytes(crate::message::strings_view(texts@)),
{
    let ghost all = crate::message::strings_view(texts@);
    put_u64_le(dst, texts.len() as u64);
    let ghost start = dst@;
    let mut i: usize = 0;
    while i < texts.len()
        invariant
            i <= texts@.len(),
            all == crate::message::strings_view(texts@),
            dst@ == start + spec_texts_bytes(all.take(i as int)),
            forall|j: int| 0 <= j < i ==> spec_text_fits(#[trigger] all[j]),
        decreases texts@.len() - i,
    {
        put_text(dst, texts[i].as_str());
        proof {
            let next = all.take(i + 1);
            assert(next.drop_last() =~= all.take(i as int));
        }
        i += 1;
    }
    assert(all.take(i as int) =~= all);
}

/// Turns bytes into the text they encode.
///
/// Calls `String::from_utf8`. The contract claims that the call succeeds
/// exactly on valid UTF-8, and that the text it then returns is the one those
/// bytes encode.
#[verifier::external_body]
fn text_from_utf8(bytes: Vec<u8>) -> (r: Option<String>)
    ensures
        r is Some <==> valid_utf8(bytes@),
        r matches Some(text) ==> text@ == decode_utf8(bytes@),
{
    String::from_utf8(bytes).ok()
}

/// Reads a text at `pos`; on success also gives the position after it.
pub fn read_text(src: &[u8], pos: usize) -> (r: Option<(String, usize)>)
    requires
        pos <= src@.len(),
    ensures
        match spec_read_text(src@.skip(pos as int)) {
            Some((text, used)) => r matches Some((found, next)) && found@ == text && next == pos
                + used && next <= src@.len(),
            None => r is None,
        },
{
    proof {
        reveal(spec_read_text);
    }
    let ghost rest = src@.skip(pos as int);
    match read_u64_le(src, pos) {
        None => None,
        Some(len) => {
            let left = src.len() - pos - 8;
            if len > left as u64 {
                None
            } else {
                let n = len as usize;
                let body = slice_subrange(src, pos + 8, pos + 8 + n);
                assert(body@ =~= rest.subrange(8, 8 + len));
                match text_from_utf8(slice_to_vec(body)) {
                    None => None,
                    Some(found) => Some((found, pos + 8 + n)),
                }
            }
        },
    }
}

/// Reads a list of texts at `pos`; on success also gives the position after it.
pub fn read_text_list(src: &[u8], pos: usize) -> (r: Option<(Vec<String>, usize)>)
    requires
        pos <= src@.len(),
    ensures
        match spec_read_text_list(src@.skip(pos as int)) {
            Some((texts, used)) => r matches Some((found, next))
                && crate::message::strings_view(found@) == texts && next == pos + used && next
                <= src@.len(),
            None => r is None,
        },
{
    match read_u64_le(src, pos) {
        None => None,
        Some(count) => {
            let ghost items = src@.skip(pos as int).skip(8);
            assert(pos + 8 <= src.len());
            let mut found: Vec<String> = Vec::new();
            let mut cur: usize = pos + 8;
            let mut i: u64 = 0;
            while i < count
                invariant
                    i <= count,
                    pos + 8 <= cur <= src@.len(),
                    items == src@.skip(pos as int).skip(8),
                    spec_read_u64_le(src@.skip(pos as int)) == Some((count, 8nat)),
                    spec_read_texts(items, i as nat) == Some(
                        (crate::message::strings_view(found@), (cur - pos - 8) as nat),
                    ),
                decreases count - i,
            {
                assert(items.skip(cur - pos - 8) =~= src@.skip(cur as int));
                match read_text(src, cur) {
                    None => {
                        proof {
                            lemma_read_texts_stops(items, (i + 1) as nat, count as nat);
                        }
                        return None;
                    },
                    Some((text, next)) => {
                        proof {
                            lemma_read_texts_bound(items, (i + 1) as nat);
                        }
                        found.push(text);
                        cur = next;
                        i += 1;
                    },
                }
            }
            Some((found, cur))
        },
    }
}

/// The single byte of a truth value: 1 for true, 0 for false.
pub open spec fn spec_bool_bytes(value: bool) -> Seq<u8> {
    seq![if value { 1u8 } else { 0u8 }]
}

/// The truth value at the front of `bytes`; a byte other than 0 or 1 is none.
pub open spec fn spec_read_bool(bytes: Seq<u8>) -> Option<(bool, nat)> {
    if bytes.len() < 1 {
        None
    } else if bytes[0] == 0 {
        Some((false, 1))
    } else if bytes[0] == 1 {
        Some((true, 1))
    } else {
        None
    }
}

/// Whether an optional text fits its length prefix.
pub open spec fn spec_opt_text_fits(text: Option<Seq<char>>) -> bool {
    text matches Some(t) ==> spec_text_fits(t)
}

/// The bytes of an optional text: a byte 0 for an absent one, a byte 1 and
/// the bytes of the text for a present one.
pub open spec fn spec_opt_text_bytes(text: Option<Seq<char>>) -> Seq<u8> {
    match text {
        None => seq![0u8],
        Some(t) => seq![1u8] + spec_text_bytes(t),
    }
}

/// The optional text at the front of `bytes`.
pub open spec fn spec_read_opt_text(bytes: Seq<u8>) -> Option<(Option<Seq<char>>, nat)> {
    if bytes.len() < 1 {
        None
    } else if bytes[0] == 0 {
        Some((None, 1))
    } else if bytes[0] == 1 {
        match spec_read_text(bytes.skip(1)) {
            None => None,
            Some((t, n)) => Some((Some(t), 1 + n)),
        }
    } else {
        None
    }
}

/// A truth value is read back from its own byte, whatever follows.
pub proof fn lemma_read_bool(value: bool, tail: Seq<u8>)
    ensures
        spec_bool_bytes(value).len() == 1,
        spec_read_bool(spec_bool_bytes(value) + tail) == Some((value, 1nat)),
{
}

/// An optional text is read back from its own bytes, whatever follows.
pub proof fn lemma_read_opt_text(text: Option<Seq<char>>, tail: Seq<u8>)
    requires
        spec_opt_text_fits(text),
    ensures
        spec_read_opt_text(spec_opt_text_bytes(text) + tail) == Some(
            (text, spec_opt_text_bytes(text).len()),
        ),
{
    match text {
        None => {},
        Some(t) => {
            let all = spec_opt_text_bytes(text) + tail;
            assert(all.skip(1) =~= spec_text_bytes(t) + tail);
            lemma_read_text(t, tail);
        },
    }
}

/// Appends the byte of `value` to `dst`.
pub fn put_bool(dst: &mut Vec<u8>, value: bool)
    ensures
        final(dst)@ == old(dst)@ + spec_bool_bytes(value),
{
    dst.push(if value { 1u8 } else { 0u8 });
}

/// The content of an optional text.
pub open spec fn opt_text_view(text: Option<String>) -> Option<Seq<char>> {
    match text {
        Some(t) => Some(t@),
        None => None,
    }
}

/// Appends the bytes of an optional text to `dst`.
pub fn put_opt_text(dst: &mut Vec<u8>, text: &Option<String>)
    ensures
        spec_opt_text_fits(opt_text_view(*text)),
        final(dst)@ == old(dst)@ + spec_opt_text_bytes(opt_text_view(*text)),
{
    match text {
        None => {
            dst.push(0u8);
        },
        Some(t) => {
            dst.push(1u8);
            put_text(dst, t.as_str());
        },
    }
}

/// Reads a truth value at `pos`.
pub fn read_bool(src: &[u8], pos: usize) -> (r: Option<bool>)
    requires
        pos <= src@.len(),
    ensures
        r == match spec_read_bool(src@.skip(pos as int)) {
            Some((value, _)) => Some(value),
            None => None,
        },
{
    if pos >= src.len() {
        None
    } else if src[pos] == 0 {
        Some(false)
    } else if src[pos] == 1 {
        Some(true)
    } else {
        None
    }
}

/// Reads an optional text at `pos`; on success also gives the position after it.
pub fn read_opt_text(src: &[u8], pos: usize) -> (r: Option<(Option<String>, usize)>)
    requires
        pos <= src@.len(),
    ensures
        match spec_read_opt_text(src@.skip(pos as int)) {
            Some((text, used)) => r matches Some((found, next)) && opt_text_view(found) == text
                && next == pos + used && next <= src@.len(),
            None => r is None,
        },
{
    if pos >= src.len() {
        None
    } else if src[pos] == 0 {
        Some((None, pos + 1))
    } else if src[pos] == 1 {
        assert(src@.skip(pos as int).skip(1) =~= src@.skip(pos + 1));
        match read_text(src, pos + 1) {
            None => None,
            Some((found, next)) => Some((Some(found), next)),
        }
    } else {
        None
    }
}

} // verus!
