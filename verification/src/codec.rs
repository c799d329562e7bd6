//! The byte layout of numbers, booleans and strings: little-endian numbers,
//! one-byte booleans, strings with a four-byte length in front.

use vstd::prelude::*;
use vstd::utf8::{decode_utf8, encode_utf8, valid_utf8};
use vstd::utf8::{decode_utf8_encode_utf8, encode_utf8_decode_utf8, encode_utf8_valid_utf8};

verus! {

// ---------------------------------------------------------------------------
// The layout, as functions on byte sequences
// ---------------------------------------------------------------------------
/// The two bytes of `value`, least significant first.
pub open spec fn u16_bytes(value: u16) -> Seq<u8> {
    seq![(value % 256) as u8, (value / 256) as u8]
}

/// The four bytes of `value`, least significant first.
pub open spec fn u32_bytes(value: u32) -> Seq<u8> {
    seq![
        (value % 256) as u8,
        (value / 256 % 256) as u8,
        (value / 65536 % 256) as u8,
        (value / 16777216) as u8,
    ]
}

/// The eight bytes of `value`, least significant first.
pub open spec fn u64_bytes(value: u64) -> Seq<u8> {
    seq![
        (value % 256) as u8,
        (value / 256 % 256) as u8,
        (value / 65536 % 256) as u8,
        (value / 16777216 % 256) as u8,
        (value / 4294967296 % 256) as u8,
        (value / 1099511627776 % 256) as u8,
        (value / 281474976710656 % 256) as u8,
        (value / 72057594037927936) as u8,
    ]
}

/// The byte of a boolean: 1 for `true`, 0 for `false`.
pub open spec fn bool_bytes(value: bool) -> Seq<u8> {
    seq![if value { 1u8 } else { 0u8 }]
}

/// Whether the UTF-8 form of `text` is short enough for a four-byte length.
pub open spec fn text_fits(text: Seq<char>) -> bool {
    encode_utf8(text).len() <= u32::MAX
}

/// The bytes of a string: the length of its UTF-8 form in four bytes, then
/// that form.
#[verifier::opaque]
pub open spec fn text_bytes(text: Seq<char>) -> Seq<u8> {
    u32_bytes(encode_utf8(text).len() as u32) + encode_utf8(text)
}

/// The number of bytes that [`text_bytes`] gives.
pub open spec fn text_len(text: Seq<char>) -> nat {
    4 + encode_utf8(text).len()
}

/// The byte at `pos`, if there is one.
pub open spec fn u8_at(bytes: Seq<u8>, pos: int) -> Option<u8> {
    if 0 <= pos < bytes.len() {
        Some(bytes[pos])
    } else {
        None
    }
}

/// The boolean at `pos`: a byte that is 0 or 1.
pub open spec fn bool_at(bytes: Seq<u8>, pos: int) -> Option<bool> {
    if 0 <= pos < bytes.len() && bytes[pos] == 0 {
        Some(false)
    } else if 0 <= pos < bytes.len() && bytes[pos] == 1 {
        Some(true)
    } else {
        None
    }
}

/// The two-byte number at `pos`, least significant byte first.
pub open spec fn u16_at(bytes: Seq<u8>, pos: int) -> Option<u16> {
    if 0 <= pos && pos + 2 <= bytes.len() {
        Some((bytes[pos] + 256 * bytes[pos + 1]) as u16)
    } else {
        None
    }
}

/// The four-byte number at `pos`, least significant byte first.
pub open spec fn u32_at(bytes: Seq<u8>, pos: int) -> Option<u32> {
    if 0 <= pos && pos + 4 <= bytes.len() {
        Some(
            (bytes[pos] + 256 * bytes[pos + 1] + 65536 * bytes[pos + 2] + 16777216 * bytes[pos
                + 3]) as u32,
        )
    } else {
        None
    }
}

/// The string at `pos`, with the position that follows it: a four-byte
/// length, then that many bytes of valid UTF-8 that lie inside `bytes`.
#[verifier::opaque]
pub open spec fn text_at(bytes: Seq<u8>, pos: int) -> Option<(Seq<char>, int)> {
    match u32_at(bytes, pos) {
        Some(n) => {
            let body = bytes.subrange(pos + 4, pos + 4 + n);
            if pos + 4 + n <= bytes.len() && valid_utf8(body) {
                Some((decode_utf8(body), pos + 4 + n))
            } else {
                None
            }
        },
        None => None,
    }
}

/// Whether `piece` stands in `bytes` from `pos` on.
pub open spec fn holds_at(bytes: Seq<u8>, pos: int, piece: Seq<u8>) -> bool {
    &&& 0 <= pos
    &&& pos + piece.len() <= bytes.len()
    &&& bytes.subrange(pos, pos + piece.len()) == piece
}

// ---------------------------------------------------------------------------
// What is written is read back
// ---------------------------------------------------------------------------
/// A piece that stands at `pos` has its bytes there, one by one.
pub proof fn holds_at_index(bytes: Seq<u8>, pos: int, piece: Seq<u8>, k: int)
    requires
        holds_at(bytes, pos, piece),
        0 <= k < piece.len(),
    ensures
        bytes[pos + k] == piece[k],
{
    assert(bytes.subrange(pos, pos + piece.len())[k] == bytes[pos + k]);
}

/// The two parts of a piece stand where the piece stands, one after the other.
pub proof fn holds_at_split(bytes: Seq<u8>, pos: int, first: Seq<u8>, second: Seq<u8>)
    requires
        holds_at(bytes, pos, first + second),
    ensures
        holds_at(bytes, pos, first),
        holds_at(bytes, pos + first.len(), second),
{
    let whole = first + second;
    assert forall|k: int| 0 <= k < first.len() implies bytes.subrange(pos, pos + first.len())[k]
        == first[k] by {
        holds_at_index(bytes, pos, whole, k);
    }
    assert(bytes.subrange(pos, pos + first.len()) =~= first);
    assert forall|k: int| 0 <= k < second.len() implies bytes.subrange(
        pos + first.len(),
        pos + first.len() + second.len(),
    )[k] == second[k] by {
        holds_at_index(bytes, pos, whole, first.len() + k);
    }
    assert(bytes.subrange(pos + first.len(), pos + first.len() + second.len()) =~= second);
}

/// Each of the pieces that a buffer starts with stands behind those before
/// it.
pub proof fn holds_at_each(
    a: Seq<u8>,
    b: Seq<u8>,
    c: Seq<u8>,
    d: Seq<u8>,
    e: Seq<u8>,
    tail: Seq<u8>,
)
    ensures
        holds_at(a + b + c + d + e + tail, 0, a),
        holds_at(a + b + c + d + e + tail, a.len() as int, b),
        holds_at(a + b + c + d + e + tail, (a.len() + b.len()) as int, c),
        holds_at(a + b + c + d + e + tail, (a.len() + b.len() + c.len()) as int, d),
        holds_at(
            a + b + c + d + e + tail,
            (a.len() + b.len() + c.len() + d.len()) as int,
            e,
        ),
        (a + b + c + d + e).len() == a.len() + b.len() + c.len() + d.len() + e.len(),
{
    let bytes = a + b + c + d + e + tail;
    holds_at_start(a + b + c + d + e, tail);
    holds_at_split(bytes, 0, a + b + c + d, e);
    holds_at_split(bytes, 0, a + b + c, d);
    holds_at_split(bytes, 0, a + b, c);
    holds_at_split(bytes, 0, a, b);
}

/// A piece stands at the start of whatever it is the start of.
pub proof fn holds_at_start(piece: Seq<u8>, tail: Seq<u8>)
    ensures
        holds_at(piece + tail, 0, piece),
{
    assert((piece + tail).subrange(0, piece.len() as int) =~= piece);
}

/// Reading where a byte was written gives the byte.
pub proof fn u8_round_trip(bytes: Seq<u8>, pos: int, value: u8)
    requires
        holds_at(bytes, pos, seq![value]),
    ensures
        u8_at(bytes, pos) == Some(value),
{
    holds_at_index(bytes, pos, seq![value], 0);
}

/// Reading where a boolean was written gives the boolean.
pub proof fn bool_round_trip(bytes: Seq<u8>, pos: int, value: bool)
    requires
        holds_at(bytes, pos, bool_bytes(value)),
    ensures
        bool_at(bytes, pos) == Some(value),
{
    holds_at_index(bytes, pos, bool_bytes(value), 0);
}

/// Reading where a two-byte number was written gives the number.
pub proof fn u16_round_trip(bytes: Seq<u8>, pos: int, value: u16)
    requires
        holds_at(bytes, pos, u16_bytes(value)),
    ensures
        u16_at(bytes, pos) == Some(value),
{
    holds_at_index(bytes, pos, u16_bytes(value), 0);
    holds_at_index(bytes, pos, u16_bytes(value), 1);
}

/// Reading where a four-byte number was written gives the number.
pub proof fn u32_round_trip(bytes: Seq<u8>, pos: int, value: u32)
    requires
        holds_at(bytes, pos, u32_bytes(value)),
    ensures
        u32_at(bytes, pos) == Some(value),
{
    holds_at_index(bytes, pos, u32_bytes(value), 0);
    holds_at_index(bytes, pos, u32_bytes(value), 1);
    holds_at_index(bytes, pos, u32_bytes(value), 2);
    holds_at_index(bytes, pos, u32_bytes(value), 3);
}

/// A string is written as [`text_len`] bytes.
pub proof fn text_bytes_len(text: Seq<char>)
    ensures
        text_bytes(text).len() == text_len(text),
{
    reveal(text_bytes);
}

/// Reading where a string was written gives the string and the position
/// behind it.
pub proof fn text_round_trip(bytes: Seq<u8>, pos: int, text: Seq<char>)
    requires
        text_fits(text),
        holds_at(bytes, pos, text_bytes(text)),
    ensures
        text_at(bytes, pos) == Some((text, pos + text_len(text))),
{
    reveal(text_at);
    reveal(text_bytes);
    let body = encode_utf8(text);
    let prefix = u32_bytes(body.len() as u32);
    holds_at_split(bytes, pos, prefix, body);
    u32_round_trip(bytes, pos, body.len() as u32);
    encode_utf8_valid_utf8(text);
    encode_utf8_decode_utf8(text);
}

/// Two bytes are the bytes of the number they spell.
pub proof fn u16_digits(b0: u8, b1: u8)
    ensures
        u16_bytes((b0 + 256 * b1) as u16) == seq![b0, b1],
{
    let n: int = b0 + 256 * b1;
    assert(n % 256 == b0 && n / 256 == b1);
    assert(u16_bytes(n as u16) =~= seq![b0, b1]);
}

/// Four bytes are the bytes of the number they spell.
pub proof fn u32_digits(b0: u8, b1: u8, b2: u8, b3: u8)
    ensures
        u32_bytes((b0 + 256 * b1 + 65536 * b2 + 16777216 * b3) as u32) == seq![b0, b1, b2, b3],
{
    let n: int = b0 + 256 * b1 + 65536 * b2 + 16777216 * b3;
    assert(n % 256 == b0 && n / 256 == b1 + 256 * b2 + 65536 * b3) by {
        assert(n == 256 * (b1 + 256 * b2 + 65536 * b3) + b0);
    }
    let m: int = n / 256;
    assert(m % 256 == b1 && m / 256 == b2 + 256 * b3) by {
        assert(m == 256 * (b2 + 256 * b3) + b1);
    }
    let l: int = m / 256;
    assert(l % 256 == b2 && l / 256 == b3) by {
        assert(l == 256 * b3 + b2);
    }
    assert(n / 65536 == l);
    assert(n / 16777216 == l / 256);
    assert(u32_bytes(n as u32) =~= seq![b0, b1, b2, b3]);
}

/// A number that was read stands at the place it was read from, in the form
/// in which it would be written.
pub proof fn u32_read_is_written(bytes: Seq<u8>, pos: int)
    requires
        u32_at(bytes, pos) is Some,
    ensures
        holds_at(bytes, pos, u32_bytes(u32_at(bytes, pos)->0)),
{
    u32_digits(bytes[pos], bytes[pos + 1], bytes[pos + 2], bytes[pos + 3]);
    assert(bytes.subrange(pos, pos + 4) =~= seq![
        bytes[pos],
        bytes[pos + 1],
        bytes[pos + 2],
        bytes[pos + 3],
    ]);
}

/// A string that was read stands at the place it was read from, in the form
/// in which it would be written.
pub proof fn text_read_is_written(bytes: Seq<u8>, pos: int)
    requires
        text_at(bytes, pos) is Some,
    ensures
        match text_at(bytes, pos) {
            Some((text, next)) => {
                &&& text_fits(text)
                &&& holds_at(bytes, pos, text_bytes(text))
                &&& next == pos + text_len(text)
            },
            None => false,
        },
{
    reveal(text_at);
    reveal(text_bytes);
    let n = u32_at(bytes, pos)->0;
    let body = bytes.subrange(pos + 4, pos + 4 + n);
    decode_utf8_encode_utf8(body);
    u32_read_is_written(bytes, pos);
    let prefix = u32_bytes(n);
    assert(bytes.subrange(pos, pos + 4) == prefix);
    assert(bytes.subrange(pos, pos + 4 + n) =~= bytes.subrange(pos, pos + 4) + body);
}

// ---------------------------------------------------------------------------
// Writing
// ---------------------------------------------------------------------------
/// Appends one byte.
pub fn put_u8(out: &mut Vec<u8>, value: u8)
    ensures
        final(out)@ == old(out)@ + seq![value],
{
    out.push(value);
    assert(out@ =~= old(out)@ + seq![value]);
}

/// Appends a boolean.
pub fn put_bool(out: &mut Vec<u8>, value: bool)
    ensures
        final(out)@ == old(out)@ + bool_bytes(value),
{
    out.push(if value { 1u8 } else { 0u8 });
    assert(out@ =~= old(out)@ + bool_bytes(value));
}

/// Appends a two-byte number.
pub fn put_u16(out: &mut Vec<u8>, value: u16)
    ensures
        final(out)@ == old(out)@ + u16_bytes(value),
{
    out.push((value % 256) as u8);
    out.push((value / 256) as u8);
    assert(out@ =~= old(out)@ + u16_bytes(value));
}

/// Appends a four-byte number.
pub fn put_u32(out: &mut Vec<u8>, value: u32)
    ensures
        final(out)@ == old(out)@ + u32_bytes(value),
{
    out.push((value % 256) as u8);
    out.push((value / 256 % 256) as u8);
    out.push((value / 65536 % 256) as u8);
    out.push((value / 16777216) as u8);
    assert(out@ =~= old(out)@ + u32_bytes(value));
}

/// Appends all of `piece`.
pub fn put_bytes(out: &mut Vec<u8>, piece: &[u8])
    ensures
        final(out)@ == old(out)@ + piece@,
{
    let mut i: usize = 0;
    while i < piece.len()
        invariant
            i <= piece.len(),
            out@ == old(out)@ + piece@.subrange(0, i as int),
        decreases piece.len() - i,
    {
        out.push(piece[i]);
        i += 1;
        assert(out@ =~= old(out)@ + piece@.subrange(0, i as int));
    }
    assert(piece@.subrange(0, i as int) =~= piece@);
}

/// Appends a string with its length; writes nothing and returns `false` where
/// the string is too long for a four-byte length.
pub fn put_text(out: &mut Vec<u8>, text: &str) -> (written: bool)
    ensures
        written == text_fits(text@),
        written ==> final(out)@ == old(out)@ + text_bytes(text@),
        !written ==> final(out)@ == old(out)@,
{
    proof {
        reveal(text_bytes);
    }
    let body = text.as_bytes();
    if body.len() > 0xffff_ffff {
        return false;
    }
    put_u32(out, body.len() as u32);
    put_bytes(out, body);
    assert(out@ =~= old(out)@ + text_bytes(text@));
    true
}

/// The number of bytes that [`put_text`] writes for `text`; `None` where the
/// text is too long to be written or the number cannot be held.
pub fn text_size(text: &str) -> (size: Option<usize>)
    ensures
        size is Some <==> text_fits(text@) && text_len(text@) <= usize::MAX,
        size matches Some(n) ==> n == text_len(text@),
{
    let body = text.as_bytes();
    if body.len() > 0xffff_ffff {
        return None;
    }
    body.len().checked_add(4)
}

// ---------------------------------------------------------------------------
// Reading
// ---------------------------------------------------------------------------
/// Reads the byte at `pos`.
pub fn get_u8(bytes: &[u8], pos: usize) -> (value: Option<u8>)
    ensures
        value == u8_at(bytes@, pos as int),
        value is Some ==> pos < bytes.len(),
{
    if pos < bytes.len() {
        Some(bytes[pos])
    } else {
        None
    }
}

/// Reads the boolean at `pos`.
pub fn get_bool(bytes: &[u8], pos: usize) -> (value: Option<bool>)
    ensures
        value == bool_at(bytes@, pos as int),
        value is Some ==> pos < bytes.len(),
{
    if pos >= bytes.len() {
        None
    } else if bytes[pos] == 0 {
        Some(false)
    } else if bytes[pos] == 1 {
        Some(true)
    } else {
        None
    }
}

/// Reads the two-byte number at `pos`.
pub fn get_u16(bytes: &[u8], pos: usize) -> (value: Option<u16>)
    ensures
        value == u16_at(bytes@, pos as int),
        value is Some ==> pos + 2 <= bytes.len(),
{
    if pos > bytes.len() || bytes.len() - pos < 2 {
        return None;
    }
    Some(bytes[pos] as u16 + 256 * (bytes[pos + 1] as u16))
}

/// Reads the four-byte number at `pos`.
pub fn get_u32(bytes: &[u8], pos: usize) -> (value: Option<u32>)
    ensures
        value == u32_at(bytes@, pos as int),
        value is Some ==> pos + 4 <= bytes.len(),
{
    if pos > bytes.len() || bytes.len() - pos < 4 {
        return None;
    }
    Some(
        bytes[pos] as u32 + 256 * (bytes[pos + 1] as u32) + 65536 * (bytes[pos + 2] as u32)
            + 16777216 * (bytes[pos + 3] as u32),
    )
}

/// Calls `String::from_utf8` of std, which returns the string that the bytes
/// encode where they are valid UTF-8 and an error where they are not.
#[verifier::external_body]
fn string_from_utf8(bytes: Vec<u8>) -> (text: Option<String>)
    ensures
        text is Some <==> valid_utf8(bytes@),
        text matches Some(s) ==> s@ == decode_utf8(bytes@),
{
    match String::from_utf8(bytes) {
        Ok(text) => Some(text),
        Err(_) => None,
    }
}

/// Reads the string at `pos` and gives the position behind it.
pub fn get_text(bytes: &[u8], pos: usize) -> (found: Option<(String, usize)>)
    ensures
        match found {
            Some((text, next)) => text_at(bytes@, pos as int) == Some((text@, next as int))
                && next <= bytes.len(),
            None => text_at(bytes@, pos as int) is None,
        },
{
    proof {
        reveal(text_at);
    }
    let n = match get_u32(bytes, pos) {
        Some(n) => n as usize,
        None => {
            return None;
        },
    };
    let start = pos + 4;
    if bytes.len() - start < n {
        return None;
    }
    let mut body: Vec<u8> = Vec::new();
    let mut i: usize = 0;
    while i < n
        invariant
            i <= n,
            start + n <= bytes.len(),
            body@ == bytes@.subrange(start as int, start + i),
        decreases n - i,
    {
        body.push(bytes[start + i]);
        i += 1;
        assert(body@ =~= bytes@.subrange(start as int, start + i));
    }
    match string_from_utf8(body) {
        Some(text) => Some((text, start + n)),
        None => None,
    }
}

} // verus!
