//! Textual encodings of byte strings: lowercase hexadecimal, and URL-safe
//! base64 as used for serialized tokens and revocation identifiers.
//!
//! The encodings themselves are performed by the `hex` and `base64` crates;
//! the spec functions here state exactly which strings they produce and
//! accept.

use vstd::prelude::*;
use vstd::utf8::encode_utf8;
use vstd::utf8::is_ascii_chars;
use crate::errors::BiscuitError;
use crate::errors::FormatError;

verus! {

/// The sixteen lowercase hexadecimal digits, in value order.
pub open spec fn hex_digits() -> Seq<char> {
    seq!['0', '1', '2', '3', '4', '5', '6', '7', '8', '9', 'a', 'b', 'c', 'd', 'e', 'f']
}

/// Hex encoding of one byte: the high nibble's digit, then the low nibble's.
pub open spec fn hex_of_byte(b: u8) -> Seq<char> {
    seq![hex_digits()[b as int / 16], hex_digits()[b as int % 16]]
}

/// Lowercase hex encoding of a byte string: two digits per byte, in order.
pub open spec fn hex_of(s: Seq<u8>) -> Seq<char>
    decreases s.len(),
{
    if s.len() == 0 {
        Seq::empty()
    } else {
        hex_of_byte(s[0]) + hex_of(s.subrange(1, s.len() as int))
    }
}

/// An ASCII hexadecimal digit, of either case.
pub open spec fn is_hex_digit(b: u8) -> bool {
    (48 <= b && b <= 57)  // '0' to '9'
    || (97 <= b && b <= 102)  // 'a' to 'f'
    || (65 <= b && b <= 70)  // 'A' to 'F'
}

/// The value of an ASCII hexadecimal digit of either case.
pub open spec fn hex_digit_value(b: u8) -> int
    recommends
        is_hex_digit(b),
{
    if b <= 57 {
        b - 48
    } else if b >= 97 {
        b - 87
    } else {
        b - 55
    }
}

/// The inputs that hex decoding accepts: an even number of ASCII
/// hexadecimal digits of either case.
pub open spec fn is_hex(s: Seq<u8>) -> bool {
    s.len() % 2 == 0 && (forall|i: int| 0 <= i < s.len() ==> is_hex_digit(#[trigger] s[i]))
}

/// The bytes encoded by a string of hexadecimal digits, two digits per byte.
pub open spec fn bytes_of_hex(s: Seq<u8>) -> Seq<u8>
    recommends
        is_hex(s),
    decreases s.len(),
{
    if s.len() < 2 {
        Seq::empty()
    } else {
        seq![(hex_digit_value(s[0]) * 16 + hex_digit_value(s[1])) as u8]
            + bytes_of_hex(s.subrange(2, s.len() as int))
    }
}

/// The 64 digits of the URL-safe base64 alphabet, in value order.
pub open spec fn b64_digits() -> Seq<char> {
    seq![
        'A', 'B', 'C', 'D', 'E', 'F', 'G', 'H', 'I', 'J', 'K', 'L', 'M',
        'N', 'O', 'P', 'Q', 'R', 'S', 'T', 'U', 'V', 'W', 'X', 'Y', 'Z',
        'a', 'b', 'c', 'd', 'e', 'f', 'g', 'h', 'i', 'j', 'k', 'l', 'm',
        'n', 'o', 'p', 'q', 'r', 's', 't', 'u', 'v', 'w', 'x', 'y', 'z',
        '0', '1', '2', '3', '4', '5', '6', '7', '8', '9', '-', '_',
    ]
}

/// URL-safe base64 encoding with '=' padding: each group of three bytes
/// becomes four digits; a trailing group of one or two bytes is padded.
pub open spec fn b64url_of(s: Seq<u8>) -> Seq<char>
    decreases s.len(),
{
    if s.len() == 0 {
        Seq::empty()
    } else if s.len() == 1 {
        let b0 = s[0] as int;
        seq![b64_digits()[b0 / 4], b64_digits()[(b0 % 4) * 16], '=', '=']
    } else if s.len() == 2 {
        let b0 = s[0] as int;
        let b1 = s[1] as int;
        seq![
            b64_digits()[b0 / 4],
            b64_digits()[(b0 % 4) * 16 + b1 / 16],
            b64_digits()[(b1 % 16) * 4],
            '=',
        ]
    } else {
        let b0 = s[0] as int;
        let b1 = s[1] as int;
        let b2 = s[2] as int;
        seq![
            b64_digits()[b0 / 4],
            b64_digits()[(b0 % 4) * 16 + b1 / 16],
            b64_digits()[(b1 % 16) * 4 + b2 / 64],
            b64_digits()[b2 % 64],
        ] + b64url_of(s.subrange(3, s.len() as int))
    }
}

/// The hex digit of a value below 16 is an ASCII character whose byte
/// reading is a hex digit of that very value.
proof fn lemma_hex_digit_table(v: int)
    requires
        0 <= v < 16,
    ensures
        '\0' <= hex_digits()[v] <= '\u{7f}',
        is_hex_digit(hex_digits()[v] as u8),
        hex_digit_value(hex_digits()[v] as u8) == v,
{
}

/// Law: hex encoding emits ASCII digits, so a hex-encoded string's UTF-8
/// bytes are its characters read as bytes, and hex decoding those bytes
/// recovers the original byte string. For any string `s` with
/// `s@ == hex_of(b)`, `s.spec_bytes()` is `encode_utf8(hex_of(b))`, so it
/// is accepted by hex decoding and decodes back to `b`.
pub proof fn lemma_hex_roundtrip(b: Seq<u8>)
    ensures
        is_ascii_chars(hex_of(b)),
        encode_utf8(hex_of(b)).len() == 2 * b.len(),
        is_hex(encode_utf8(hex_of(b))),
        bytes_of_hex(encode_utf8(hex_of(b))) == b,
    decreases b.len(),
{
    broadcast use vstd::utf8::is_ascii_chars_encode_utf8;

    if b.len() == 0 {
        assert(hex_of(b) =~= Seq::<char>::empty());
        assert(is_ascii_chars(hex_of(b)));
        assert(encode_utf8(hex_of(b)) =~= Seq::<u8>::empty());
        assert(bytes_of_hex(encode_utf8(hex_of(b))) =~= b);
    } else {
        let tail = b.subrange(1, b.len() as int);
        lemma_hex_roundtrip(tail);
        let hi = b[0] as int / 16;
        let lo = b[0] as int % 16;
        lemma_hex_digit_table(hi);
        lemma_hex_digit_table(lo);
        let c = hex_of(b);
        assert(c =~= hex_of_byte(b[0]) + hex_of(tail));
        assert forall|i: int| 0 <= i < c.len() implies '\0' <= #[trigger] c[i] <= '\u{7f}' by {
            if i >= 2 {
                assert(c[i] == hex_of(tail)[i - 2]);
            }
        }
        assert(is_ascii_chars(c));
        let bytes = encode_utf8(c);
        let tail_bytes = encode_utf8(hex_of(tail));
        assert(bytes.len() == 2 * b.len());
        assert forall|i: int| 0 <= i < bytes.len() implies is_hex_digit(#[trigger] bytes[i]) by {
            assert(bytes[i] == c[i] as u8);
            if i >= 2 {
                assert(c[i] == hex_of(tail)[i - 2]);
                assert(tail_bytes[i - 2] == hex_of(tail)[i - 2] as u8);
                assert(is_hex_digit(tail_bytes[i - 2]));
            }
        }
        assert(is_hex(bytes));
        assert(bytes[0] == hex_digits()[hi] as u8);
        assert(bytes[1] == hex_digits()[lo] as u8);
        assert(hi * 16 + lo == b[0] as int);
        assert((hex_digit_value(bytes[0]) * 16 + hex_digit_value(bytes[1])) as u8 == b[0]);
        assert(bytes.subrange(2, bytes.len() as int) =~= tail_bytes) by {
            assert forall|i: int| 0 <= i < bytes.len() - 2 implies #[trigger] bytes[i + 2]
                == tail_bytes[i] by {
                assert(bytes[i + 2] == c[i + 2] as u8);
                assert(c[i + 2] == hex_of(tail)[i]);
                assert(tail_bytes[i] == hex_of(tail)[i] as u8);
            }
        }
        assert(bytes_of_hex(bytes) =~= seq![b[0]] + bytes_of_hex(tail_bytes));
        assert(seq![b[0]] + tail =~= b);
    }
}

/// Relies on `hex::encode`: lowercase hexadecimal, two digits per byte.
#[verifier::external_body]
pub(crate) fn hex_encode(b: &[u8]) -> (r: String)
    ensures
        r@ == hex_of(b@),
{
    hex::encode(b)
}

/// Relies on `hex::decode`: it accepts exactly the even-length strings of
/// hexadecimal digits of either case and inverts hex encoding. A failure is
/// mapped to an invalid-key error carrying the decode failure description.
#[verifier::external_body]
pub(crate) fn hex_decode_key(s: &[u8]) -> (r: Result<Vec<u8>, BiscuitError>)
    ensures
        r is Ok <==> is_hex(s@),
        r matches Ok(v) ==> v@ == bytes_of_hex(s@),
        r matches Err(e) ==> e matches BiscuitError::Format(FormatError::InvalidKey(_)),
{
    hex::decode(s).map_err(|e| {
        BiscuitError::Format(FormatError::InvalidKey(format!(
            "could not deserialize hex encoded key: {}",
            e
        )))
    })
}

/// Relies on `base64::encode_config` with the URL-safe alphabet and '='
/// padding.
#[verifier::external_body]
pub(crate) fn b64url_encode(b: &[u8]) -> (r: String)
    ensures
        r@ == b64url_of(b@),
{
    base64::encode_config(b, base64::URL_SAFE)
}

} // verus!
