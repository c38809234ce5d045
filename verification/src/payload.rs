//! The byte encoding of a token's payload.
//!
//! A payload is a header of fixed size followed by four texts in UTF-8:
//!
//! | offset | size | field                                   |
//! |-------:|-----:|-----------------------------------------|
//! |      0 |    4 | user id, little-endian                  |
//! |      4 |    1 | activated, 0 or 1                       |
//! |      5 |    1 | 1 if an activation time follows, else 0 |
//! |      6 |   12 | activation time, all zero if there is none |
//! |     18 |   12 | expiry time                             |
//! |     30 |   32 | lengths of username, nickname, email, password |
//!
//! An instant is its seconds in 8 bytes and its nanoseconds in 4, and a
//! length is 8 bytes, each little-endian. Every payload has exactly one
//! encoding, and every other byte string is refused.

use crate::models::user::{text_fits, TokenData, TokenDataView, User, UserView};
use crate::time::Timestamp;
use vstd::bytes::{
    lemma_auto_spec_u32_to_from_le_bytes, lemma_auto_spec_u64_to_from_le_bytes,
    spec_u32_from_le_bytes, spec_u32_to_le_bytes, spec_u64_from_le_bytes, spec_u64_to_le_bytes,
    u32_from_le_bytes, u32_to_le_bytes, u64_from_le_bytes, u64_to_le_bytes,
};
use vstd::prelude::*;
use vstd::slice::{slice_subrange, slice_to_vec};
use vstd::utf8::{decode_utf8, encode_utf8, valid_utf8};

verus! {

/// Bytes in the header of an encoded payload.
pub const HEADER_LEN: usize = 62;

/// A truth value as one byte.
pub open spec fn flag_byte(flag: bool) -> u8 {
    if flag {
        1u8
    } else {
        0u8
    }
}

/// The epoch itself, which stands in the header where no activation time is.
pub open spec fn no_time() -> Timestamp {
    Timestamp { secs: 0, nanos: 0 }
}

/// The activation time as the header holds it.
pub open spec fn activation_slot(v: TokenDataView) -> Timestamp {
    match v.user.activated_at {
        Some(t) => t,
        None => no_time(),
    }
}

/// An instant as 12 bytes.
pub open spec fn time_bytes(t: Timestamp) -> Seq<u8> {
    spec_u64_to_le_bytes(t.secs) + spec_u32_to_le_bytes(t.nanos)
}

/// The length of a text's UTF-8 form as 8 bytes.
pub open spec fn length_bytes(text: Seq<char>) -> Seq<u8> {
    spec_u64_to_le_bytes(encode_utf8(text).len() as u64)
}

/// The header of a payload's encoding.
pub open spec fn header(v: TokenDataView) -> Seq<u8> {
    spec_u32_to_le_bytes(v.user.id as u32) + seq![flag_byte(v.user.activated)] + seq![
        flag_byte(v.user.activated_at is Some),
    ] + time_bytes(activation_slot(v)) + time_bytes(v.expired_at) + length_bytes(v.user.username) + length_bytes(v.user.nickname)
        + length_bytes(v.user.email) + length_bytes(v.user.password)
}

/// The encoding of a payload.
pub open spec fn encoded(v: TokenDataView) -> Seq<u8> {
    header(v) + encode_utf8(v.user.username) + encode_utf8(v.user.nickname) + encode_utf8(
        v.user.email,
    ) + encode_utf8(v.user.password)
}

/// The instant written in the 12 bytes of `bytes` from `at` on.
pub open spec fn time_at(bytes: Seq<u8>, at: int) -> Timestamp {
    Timestamp {
        secs: spec_u64_from_le_bytes(bytes.subrange(at, at + 8)),
        nanos: spec_u32_from_le_bytes(bytes.subrange(at + 8, at + 12)),
    }
}

/// The length written in the 8 bytes of `bytes` from `at` on.
pub open spec fn length_at(bytes: Seq<u8>, at: int) -> int {
    spec_u64_from_le_bytes(bytes.subrange(at, at + 8)) as int
}

/// Where each of the four texts of `bytes` starts, and where the last one
/// ends, as the lengths in the header give it.
pub open spec fn text_bounds(bytes: Seq<u8>) -> (int, int, int, int, int) {
    let a = HEADER_LEN as int;
    let b = a + length_at(bytes, 30);
    let c = b + length_at(bytes, 38);
    let d = c + length_at(bytes, 46);
    let e = d + length_at(bytes, 54);
    (a, b, c, d, e)
}

/// Whether `bytes` has a header whose flags are 0 or 1, whose instants are
/// well formed, whose activation time is zero where the flag says there is
/// none, and whose four lengths add up to what follows the header.
pub open spec fn header_accepted(bytes: Seq<u8>) -> bool {
    &&& bytes.len() >= HEADER_LEN
    &&& bytes[4] <= 1
    &&& bytes[5] <= 1
    &&& time_at(bytes, 6).wf()
    &&& time_at(bytes, 18).wf()
    &&& bytes[5] == 0 ==> time_at(bytes, 6) == no_time()
    &&& text_bounds(bytes).4 == bytes.len()
}

/// The payload that `bytes` encodes, or `None` where it encodes none.
pub open spec fn parsed(bytes: Seq<u8>) -> Option<TokenDataView> {
    let (a, b, c, d, e) = text_bounds(bytes);
    if !header_accepted(bytes) || !valid_utf8(bytes.subrange(a, b)) || !valid_utf8(
        bytes.subrange(b, c),
    ) || !valid_utf8(bytes.subrange(c, d)) || !valid_utf8(bytes.subrange(d, e)) {
        None
    } else {
        Some(
            TokenDataView {
                user: UserView {
                    id: spec_u32_from_le_bytes(bytes.subrange(0, 4)) as i32,
                    username: decode_utf8(bytes.subrange(a, b)),
                    nickname: decode_utf8(bytes.subrange(b, c)),
                    email: decode_utf8(bytes.subrange(c, d)),
                    password: decode_utf8(bytes.subrange(d, e)),
                    activated: bytes[4] == 1,
                    activated_at: if bytes[5] == 1 {
                        Some(time_at(bytes, 6))
                    } else {
                        None
                    },
                },
                expired_at: time_at(bytes, 18),
            },
        )
    }
}

/// Where the header keeps each field.
proof fn lemma_header_layout(v: TokenDataView)
    ensures
        header(v).len() == HEADER_LEN,
        header(v).subrange(0, 4) == spec_u32_to_le_bytes(v.user.id as u32),
        header(v)[4] == flag_byte(v.user.activated),
        header(v)[5] == flag_byte(v.user.activated_at is Some),
        header(v).subrange(6, 14) == spec_u64_to_le_bytes(activation_slot(v).secs),
        header(v).subrange(14, 18) == spec_u32_to_le_bytes(activation_slot(v).nanos),
        header(v).subrange(18, 26) == spec_u64_to_le_bytes(v.expired_at.secs),
        header(v).subrange(26, 30) == spec_u32_to_le_bytes(v.expired_at.nanos),
        header(v).subrange(30, 38) == length_bytes(v.user.username),
        header(v).subrange(38, 46) == length_bytes(v.user.nickname),
        header(v).subrange(46, 54) == length_bytes(v.user.email),
        header(v).subrange(54, 62) == length_bytes(v.user.password),
{
    lemma_auto_spec_u32_to_from_le_bytes();
    lemma_auto_spec_u64_to_from_le_bytes();
}

/// Decoding undoes encoding: what was encoded is what is parsed.
pub proof fn lemma_parse_encoded(v: TokenDataView)
    requires
        v.wf(),
    ensures
        parsed(encoded(v)) == Some(v),
{
    broadcast use vstd::utf8::encode_utf8_valid_utf8, vstd::utf8::encode_utf8_decode_utf8;

    lemma_auto_spec_u32_to_from_le_bytes();
    lemma_auto_spec_u64_to_from_le_bytes();
    lemma_header_layout(v);
    let h = header(v);
    let e = encoded(v);
    let u = v.user;
    let t1 = encode_utf8(u.username);
    let t2 = encode_utf8(u.nickname);
    let t3 = encode_utf8(u.email);
    let t4 = encode_utf8(u.password);
    assert(e.subrange(0, 4) =~= h.subrange(0, 4));
    assert(e.subrange(6, 14) =~= h.subrange(6, 14));
    assert(e.subrange(14, 18) =~= h.subrange(14, 18));
    assert(e.subrange(18, 26) =~= h.subrange(18, 26));
    assert(e.subrange(26, 30) =~= h.subrange(26, 30));
    assert(e.subrange(30, 38) =~= h.subrange(30, 38));
    assert(e.subrange(38, 46) =~= h.subrange(38, 46));
    assert(e.subrange(46, 54) =~= h.subrange(46, 54));
    assert(e.subrange(54, 62) =~= h.subrange(54, 62));
    let (a, b, c, d, end) = text_bounds(e);
    assert(e.subrange(a, b) =~= t1);
    assert(e.subrange(b, c) =~= t2);
    assert(e.subrange(c, d) =~= t3);
    assert(e.subrange(d, end) =~= t4);
    let id = u.id;
    assert((id as u32) as i32 == id) by (bit_vector);
}

/// Encoding undoes decoding: the bytes that parse to a payload are that
/// payload's encoding, so no payload has two encodings.
pub proof fn lemma_encoded_parse(bytes: Seq<u8>)
    requires
        parsed(bytes) is Some,
    ensures
        encoded(parsed(bytes)->0) == bytes,
        parsed(bytes)->0.wf(),
{
    broadcast use vstd::utf8::decode_utf8_encode_utf8;

    lemma_auto_spec_u32_to_from_le_bytes();
    lemma_auto_spec_u64_to_from_le_bytes();
    let v = parsed(bytes)->0;
    lemma_header_layout(v);
    let raw_id = spec_u32_from_le_bytes(bytes.subrange(0, 4));
    assert((raw_id as i32) as u32 == raw_id) by (bit_vector);
    assert(header(v) =~= bytes.subrange(0, HEADER_LEN as int));
}

/// Two payloads with one encoding are one payload.
pub proof fn lemma_encoding_injective(a: TokenDataView, b: TokenDataView)
    requires
        a.wf(),
        b.wf(),
        encoded(a) == encoded(b),
    ensures
        a == b,
{
    lemma_parse_encoded(a);
    lemma_parse_encoded(b);
}

/// `String::from_utf8`: the text whose UTF-8 form is `bytes`, where `bytes`
/// is well-formed UTF-8, and `None` where it is not.
#[verifier::external_body]
fn text_from_utf8(bytes: Vec<u8>) -> (text: Option<String>)
    ensures
        text is Some <==> valid_utf8(bytes@),
        text matches Some(t) ==> t@ == decode_utf8(bytes@),
{
    String::from_utf8(bytes).ok()
}

/// Writes `piece` at the end of `out`.
fn append_bytes(out: &mut Vec<u8>, piece: &[u8])
    ensures
        final(out)@ == old(out)@ + piece@,
{
    let mut i: usize = 0;
    while i < piece.len()
        invariant
            i <= piece@.len(),
            out@ == old(out)@ + piece@.subrange(0, i as int),
        decreases piece@.len() - i,
    {
        out.push(piece[i]);
        i += 1;
    }
}

/// Writes an instant at the end of `out`.
fn append_time(out: &mut Vec<u8>, t: Timestamp)
    ensures
        final(out)@ == old(out)@ + time_bytes(t),
{
    let secs = u64_to_le_bytes(t.secs);
    let nanos = u32_to_le_bytes(t.nanos);
    append_bytes(out, secs.as_slice());
    append_bytes(out, nanos.as_slice());
}

/// Writes the length of a text's UTF-8 form at the end of `out`.
fn append_length(out: &mut Vec<u8>, text: &str)
    ensures
        final(out)@ == old(out)@ + length_bytes(text@),
        text_fits(text@),
{
    let length = u64_to_le_bytes(text.as_bytes().len() as u64);
    append_bytes(out, length.as_slice());
}

/// Encodes a payload.
pub fn encode_payload(data: &TokenData) -> (bytes: Vec<u8>)
    ensures
        bytes@ == encoded(data@),
        text_fits(data@.user.username),
        text_fits(data@.user.nickname),
        text_fits(data@.user.email),
        text_fits(data@.user.password),
{
    let user = &data.user;
    let mut out = u32_to_le_bytes(user.id as u32);
    out.push(if user.activated { 1u8 } else { 0u8 });
    let slot = match user.activated_at {
        Some(t) => {
            out.push(1u8);
            t
        },
        None => {
            out.push(0u8);
            Timestamp { secs: 0, nanos: 0 }
        },
    };
    append_time(&mut out, slot);
    append_time(&mut out, data.expired_at);
    append_length(&mut out, user.username.as_str());
    append_length(&mut out, user.nickname.as_str());
    append_length(&mut out, user.email.as_str());
    append_length(&mut out, user.password.as_str());
    append_bytes(&mut out, user.username.as_str().as_bytes());
    append_bytes(&mut out, user.nickname.as_str().as_bytes());
    append_bytes(&mut out, user.email.as_str().as_bytes());
    append_bytes(&mut out, user.password.as_str().as_bytes());
    out
}

/// Reads the instant in the 12 bytes of `bytes` from `at` on.
fn read_time(bytes: &[u8], at: usize) -> (t: Timestamp)
    requires
        at + 12 <= bytes.len(),
    ensures
        t == time_at(bytes@, at as int),
{
    Timestamp {
        secs: u64_from_le_bytes(slice_subrange(bytes, at, at + 8)),
        nanos: u32_from_le_bytes(slice_subrange(bytes, at + 8, at + 12)),
    }
}

/// Reads the length in the 8 bytes of `bytes` from `at` on.
fn read_length(bytes: &[u8], at: usize) -> (n: u64)
    requires
        at + 8 <= bytes.len(),
    ensures
        n == length_at(bytes@, at as int),
{
    u64_from_le_bytes(slice_subrange(bytes, at, at + 8))
}

/// Reads the text in `bytes` from `from` up to `to`.
fn read_text(bytes: &[u8], from: usize, to: usize) -> (text: Option<String>)
    requires
        from <= to <= bytes.len(),
    ensures
        text is Some <==> valid_utf8(bytes@.subrange(from as int, to as int)),
        text matches Some(t) ==> t@ == decode_utf8(bytes@.subrange(from as int, to as int)),
{
    text_from_utf8(slice_to_vec(slice_subrange(bytes, from, to)))
}

/// Decodes a payload: `Some` exactly where `bytes` is the encoding of one.
pub fn decode_payload(bytes: &[u8]) -> (data: Option<TokenData>)
    ensures
        match parsed(bytes@) {
            Some(v) => data matches Some(d) && d@ == v && v.wf(),
            None => data is None,
        },
{
    proof {
        if parsed(bytes@) is Some {
            lemma_encoded_parse(bytes@);
        }
    }
    if bytes.len() < HEADER_LEN {
        return None;
    }
    let rest = bytes.len() - HEADER_LEN;
    let id = u32_from_le_bytes(slice_subrange(bytes, 0, 4)) as i32;
    let activated = bytes[4];
    let has_time = bytes[5];
    let slot = read_time(bytes, 6);
    let expired_at = read_time(bytes, 18);
    let n1 = read_length(bytes, 30);
    let n2 = read_length(bytes, 38);
    let n3 = read_length(bytes, 46);
    let n4 = read_length(bytes, 54);
    if activated > 1 || has_time > 1 || slot.nanos >= crate::time::NANOS_PER_SECOND
        || expired_at.nanos >= crate::time::NANOS_PER_SECOND {
        return None;
    }
    if has_time == 0 && (slot.secs != 0 || slot.nanos != 0) {
        return None;
    }
    if n1 > rest as u64 || n2 > rest as u64 || n3 > rest as u64 || n4 > rest as u64 {
        return None;
    }
    if n1 as u128 + n2 as u128 + n3 as u128 + n4 as u128 != rest as u128 {
        return None;
    }
    let a: usize = HEADER_LEN;
    let b: usize = a + n1 as usize;
    let c: usize = b + n2 as usize;
    let d: usize = c + n3 as usize;
    let e: usize = d + n4 as usize;
    let username = match read_text(bytes, a, b) {
        Some(t) => t,
        None => {
            return None;
        },
    };
    let nickname = match read_text(bytes, b, c) {
        Some(t) => t,
        None => {
            return None;
        },
    };
    let email = match read_text(bytes, c, d) {
        Some(t) => t,
        None => {
            return None;
        },
    };
    let password = match read_text(bytes, d, e) {
        Some(t) => t,
        None => {
            return None;
        },
    };
    Some(
        TokenData {
            user: User {
                id,
                username,
                nickname,
                email,
                password,
                activated: activated == 1,
                activated_at: if has_time == 1 {
                    Some(slot)
                } else {
                    None
                },
            },
            expired_at,
        },
    )
}

} // verus!
