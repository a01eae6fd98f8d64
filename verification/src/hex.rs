//! Hexadecimal text, as the signature header carries it.

use vstd::prelude::*;

verus! {

/// The value of a hexadecimal digit, in either case, or `None` for any other
/// byte.
pub open spec fn hex_value(digit: u8) -> Option<u8> {
    if '0' as u8 <= digit <= '9' as u8 {
        Some((digit - '0' as u8) as u8)
    } else if 'a' as u8 <= digit <= 'f' as u8 {
        Some((digit - 'a' as u8 + 10) as u8)
    } else if 'A' as u8 <= digit <= 'F' as u8 {
        Some((digit - 'A' as u8 + 10) as u8)
    } else {
        None
    }
}

/// Whether `text` is an even number of hexadecimal digits.
pub open spec fn is_hex(text: Seq<u8>) -> bool {
    &&& text.len() % 2 == 0
    &&& forall|i: int| 0 <= i < text.len() ==> (#[trigger] hex_value(text[i])) is Some
}

/// The byte that two digits write, the first one being the high half.
pub open spec fn hex_pair(high: u8, low: u8) -> u8 {
    (hex_value(high)->0 * 16 + hex_value(low)->0) as u8
}

/// The bytes that `text` writes, two digits to a byte, or `None` where `text`
/// is not hexadecimal. The empty text writes no bytes.
pub open spec fn hex_decoded(text: Seq<u8>) -> Option<Seq<u8>> {
    if is_hex(text) {
        Some(Seq::new(text.len() / 2, |i: int| hex_pair(text[2 * i], text[2 * i + 1])))
    } else {
        None
    }
}

/// The lower-case digit for a value below sixteen.
pub open spec fn hex_digit(value: u8) -> u8
    recommends
        value < 16,
{
    if value < 10 {
        ('0' as u8 + value) as u8
    } else {
        ('a' as u8 + value - 10) as u8
    }
}

/// `bytes` written in lower-case hexadecimal.
pub open spec fn hex_encoded(bytes: Seq<u8>) -> Seq<u8> {
    Seq::new(
        2 * bytes.len(),
        |i: int|
            if i % 2 == 0 {
                hex_digit(bytes[i / 2] / 16)
            } else {
                hex_digit(bytes[i / 2] % 16)
            },
    )
}

/// The bytes of `bytes`, where there are any.
pub open spec fn bytes_view(bytes: Option<Vec<u8>>) -> Option<Seq<u8>> {
    match bytes {
        Some(bytes) => Some(bytes@),
        None => None,
    }
}

/// Calls `hex::decode`. Trusted: it gives the bytes that an even number of
/// hexadecimal digits write, upper and lower case alike, and fails on
/// anything else.
#[verifier::external_body]
pub(crate) fn decode_hex(text: &[u8]) -> (bytes: Option<Vec<u8>>)
    ensures
        bytes_view(bytes) == hex_decoded(text@),
{
    ::hex::decode(text).ok()
}

/// Decoding what was encoded gives the bytes back.
pub proof fn lemma_hex_round_trip(bytes: Seq<u8>)
    ensures
        hex_decoded(hex_encoded(bytes)) == Some(bytes),
{
    let text = hex_encoded(bytes);
    assert forall|i: int| 0 <= i < text.len() implies (#[trigger] hex_value(text[i])) is Some by {
        assert(0 <= i / 2 < bytes.len());
    }
    assert(is_hex(text));
    let decoded = hex_decoded(text)->0;
    assert forall|i: int| 0 <= i < bytes.len() implies decoded[i] == bytes[i] by {
        let byte = bytes[i];
        assert((2 * i) % 2 == 0 && (2 * i) / 2 == i);
        assert((2 * i + 1) % 2 == 1 && (2 * i + 1) / 2 == i);
        assert(text[2 * i] == hex_digit(byte / 16));
        assert(text[2 * i + 1] == hex_digit(byte % 16));
        assert(hex_value(hex_digit(byte / 16)) == Some(byte / 16));
        assert(hex_value(hex_digit(byte % 16)) == Some(byte % 16));
        assert((byte / 16) * 16 + byte % 16 == byte);
    }
    assert(decoded =~= bytes);
}

/// Two hexadecimal texts of one length that differ in the value of a digit
/// write different bytes.
pub proof fn lemma_hex_digit_matters(left: Seq<u8>, right: Seq<u8>, at: int)
    requires
        is_hex(left),
        is_hex(right),
        left.len() == right.len(),
        0 <= at < left.len(),
        hex_value(left[at]) != hex_value(right[at]),
    ensures
        hex_decoded(left) != hex_decoded(right),
{
    let k = at / 2;
    let a = hex_decoded(left)->0;
    let b = hex_decoded(right)->0;
    assert(0 <= k < left.len() / 2);
    assert(hex_value(left[2 * k]) is Some);
    assert(hex_value(left[2 * k + 1]) is Some);
    assert(hex_value(right[2 * k]) is Some);
    assert(hex_value(right[2 * k + 1]) is Some);
    assert(at == 2 * k || at == 2 * k + 1);
    assert(a[k] == hex_pair(left[2 * k], left[2 * k + 1]));
    assert(b[k] == hex_pair(right[2 * k], right[2 * k + 1]));
    assert(a[k] != b[k]);
}

} // verus!
