//! Percent-encoding, by which a token travels in the query of a link.
//!
//! Every byte that is not an ASCII letter or digit is written as `%` and two
//! upper-case hexadecimal digits, so that the text survives any URL.
//! Decoding reads `%` and two hexadecimal digits of either case as one byte
//! and leaves every other byte as it is.

use vstd::prelude::*;
use vstd::string::StringSliceAdditionalSpecFns;
use vstd::utf8::{decode_utf8, encode_utf8, is_ascii_chars, valid_utf8};

verus! {

/// An ASCII letter or digit.
pub open spec fn is_alphanumeric(byte: u8) -> bool {
    (0x30 <= byte <= 0x39) || (0x41 <= byte <= 0x5a) || (0x61 <= byte <= 0x7a)
}

/// The upper-case hexadecimal digit of a value below 16, as a byte.
pub open spec fn hex_digit(value: u8) -> u8 {
    if value < 10 {
        (0x30 + value) as u8
    } else {
        (0x41 + value - 10) as u8
    }
}

/// The value of a hexadecimal digit of either case, or `None` for any other
/// byte.
pub open spec fn hex_value(byte: u8) -> Option<u8> {
    if 0x30 <= byte <= 0x39 {
        Some((byte - 0x30) as u8)
    } else if 0x41 <= byte <= 0x46 {
        Some((byte - 0x41 + 10) as u8)
    } else if 0x61 <= byte <= 0x66 {
        Some((byte - 0x61 + 10) as u8)
    } else {
        None
    }
}

/// One byte, percent-encoded.
pub open spec fn escaped(byte: u8) -> Seq<u8> {
    if is_alphanumeric(byte) {
        seq![byte]
    } else {
        seq![0x25u8, hex_digit(byte / 16), hex_digit(byte % 16)]
    }
}

/// `bytes`, percent-encoded, as ASCII bytes.
pub open spec fn percent_encoded_bytes(bytes: Seq<u8>) -> Seq<u8>
    decreases bytes.len(),
{
    if bytes.len() == 0 {
        Seq::empty()
    } else {
        escaped(bytes[0]) + percent_encoded_bytes(bytes.drop_first())
    }
}

/// ASCII bytes as text.
pub open spec fn ascii_text(bytes: Seq<u8>) -> Seq<char> {
    Seq::new(bytes.len(), |i: int| bytes[i] as char)
}

/// `bytes`, percent-encoded.
pub open spec fn percent_encoded(bytes: Seq<u8>) -> Seq<char> {
    ascii_text(percent_encoded_bytes(bytes))
}

/// Whether `bytes` starts with `%` and two hexadecimal digits.
pub open spec fn starts_with_escape(bytes: Seq<u8>) -> bool {
    bytes.len() >= 3 && bytes[0] == 0x25 && hex_value(bytes[1]) is Some && hex_value(bytes[2]) is Some
}

/// `bytes`, percent-decoded.
pub open spec fn percent_decoded(bytes: Seq<u8>) -> Seq<u8>
    decreases bytes.len(),
{
    if bytes.len() == 0 {
        Seq::empty()
    } else if starts_with_escape(bytes) {
        seq![(hex_value(bytes[1])->0 * 16 + hex_value(bytes[2])->0) as u8] + percent_decoded(
            bytes.skip(3),
        )
    } else {
        seq![bytes[0]] + percent_decoded(bytes.drop_first())
    }
}

/// Calls `percent_encoding::percent_encode` with the crate's set
/// `NON_ALPHANUMERIC`, under which every byte but the ASCII letters and
/// digits is escaped, and collects the text.
#[verifier::external_body]
fn percent_encode_all(input: &[u8]) -> (text: String)
    ensures
        text@ == percent_encoded(input@),
{
    percent_encoding::percent_encode(input, percent_encoding::NON_ALPHANUMERIC).to_string()
}

/// Calls `percent_encoding::percent_decode_str` and then `decode_utf8` on
/// what it gives: the text whose UTF-8 form the decoded bytes are, or `None`
/// where they are not well-formed UTF-8.
#[verifier::external_body]
fn percent_decode_text(input: &str) -> (text: Option<String>)
    ensures
        text is Some <==> valid_utf8(percent_decoded(input.spec_bytes())),
        text matches Some(t) ==> t@ == decode_utf8(percent_decoded(input.spec_bytes())),
{
    match percent_encoding::percent_decode_str(input).decode_utf8() {
        Ok(text) => Some(text.into_owned()),
        Err(_) => None,
    }
}

/// What decoding makes of a text: the text that the decoded bytes spell, or
/// `None` where they spell none.
pub open spec fn url_decoded(text: Seq<char>) -> Option<Seq<char>> {
    if valid_utf8(percent_decoded(encode_utf8(text))) {
        Some(decode_utf8(percent_decoded(encode_utf8(text))))
    } else {
        None
    }
}

/// Percent-encodes `text` for use in the query of a link.
pub fn url_encode(text: &str) -> (encoded: String)
    ensures
        encoded@ == percent_encoded(encode_utf8(text@)),
{
    percent_encode_all(text.as_bytes())
}

/// Reads a percent-encoded text back.
pub fn url_decode(text: &str) -> (decoded: Option<String>)
    ensures
        decoded is Some <==> url_decoded(text@) is Some,
        decoded matches Some(t) ==> url_decoded(text@) == Some(t@),
{
    percent_decode_text(text)
}

/// An encoded byte is one or three ASCII bytes.
proof fn lemma_escaped_ascii(byte: u8)
    ensures
        forall|i: int| 0 <= i < escaped(byte).len() ==> #[trigger] escaped(byte)[i] < 0x80,
        1 <= escaped(byte).len() <= 3,
{
}

/// Encoded bytes are ASCII.
pub proof fn lemma_encoded_is_ascii(bytes: Seq<u8>)
    ensures
        forall|i: int|
            0 <= i < percent_encoded_bytes(bytes).len() ==> #[trigger] percent_encoded_bytes(bytes)[i]
                < 0x80,
        is_ascii_chars(percent_encoded(bytes)),
        encode_utf8(percent_encoded(bytes)) == percent_encoded_bytes(bytes),
    decreases bytes.len(),
{
    if bytes.len() > 0 {
        lemma_escaped_ascii(bytes[0]);
        lemma_encoded_is_ascii(bytes.drop_first());
    }
    let text = percent_encoded(bytes);
    assert(is_ascii_chars(text));
    vstd::utf8::is_ascii_chars_encode_utf8(text);
    assert(encode_utf8(text) =~= percent_encoded_bytes(bytes));
}

/// Encoded text is safe in the query of a URL: it holds ASCII letters and
/// digits and the percent sign, and nothing else.
pub proof fn lemma_encoded_is_url_safe(bytes: Seq<u8>, i: int)
    requires
        0 <= i < percent_encoded_bytes(bytes).len(),
    ensures
        is_alphanumeric(percent_encoded_bytes(bytes)[i]) || percent_encoded_bytes(bytes)[i] == 0x25,
    decreases bytes.len(),
{
    let first = escaped(bytes[0]);
    if i >= first.len() {
        lemma_encoded_is_url_safe(bytes.drop_first(), i - first.len());
    }
}

/// Decoding a text that starts with an encoded byte gives that byte, and
/// goes on with what follows it.
proof fn lemma_decode_after_escaped(byte: u8, rest: Seq<u8>)
    ensures
        percent_decoded(escaped(byte) + rest) == seq![byte] + percent_decoded(rest),
{
    let all = escaped(byte) + rest;
    if is_alphanumeric(byte) {
        assert(all.drop_first() =~= rest);
    } else {
        assert(all.skip(3) =~= rest);
    }
}

/// Decoding undoes encoding, byte for byte.
pub proof fn lemma_decode_encoded_bytes(bytes: Seq<u8>)
    ensures
        percent_decoded(percent_encoded_bytes(bytes)) == bytes,
    decreases bytes.len(),
{
    if bytes.len() > 0 {
        lemma_decode_encoded_bytes(bytes.drop_first());
        lemma_decode_after_escaped(bytes[0], percent_encoded_bytes(bytes.drop_first()));
    }
}

/// A text survives the round trip through a link: what `url_encode` makes
/// of it, `url_decode` reads back unchanged.
pub proof fn lemma_url_round_trip(text: Seq<char>)
    ensures
        url_decoded(percent_encoded(encode_utf8(text))) == Some(text),
{
    broadcast use vstd::utf8::encode_utf8_valid_utf8, vstd::utf8::encode_utf8_decode_utf8;

    lemma_encoded_is_ascii(encode_utf8(text));
    lemma_decode_encoded_bytes(encode_utf8(text));
}

} // verus!
