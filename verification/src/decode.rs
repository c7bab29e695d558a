//! Base64 decoding of the harvested runs, and the UTF-8 test that gates
//! the rescan of decoded text. Both lean on outside code behind exact
//! contracts.

use base64::Engine;
use base64::engine::general_purpose::STANDARD_NO_PAD;
use vstd::prelude::*;
use vstd::utf8::valid_utf8;

verus! {

/// The value of a byte in the standard Base64 alphabet, or 64 for a byte
/// outside it. `=` is outside: the engine used here accepts no padding.
pub open spec fn b64_val(b: u8) -> int {
    if 65 <= b <= 90 {
        b - 65
    } else if 97 <= b <= 122 {
        b - 71
    } else if 48 <= b <= 57 {
        b + 4
    } else if b == 43 {
        62
    } else if b == 47 {
        63
    } else {
        64
    }
}

/// Every byte of `s` is a standard Base64 symbol.
pub open spec fn all_b64_symbols(s: Seq<u8>) -> bool {
    forall|i: int| 0 <= i < s.len() ==> b64_val(s[i]) < 64
}

/// The trailing bits of a final partial group must be zero: the second
/// symbol of a two-symbol tail contributes only its top two bits, the
/// third symbol of a three-symbol tail only its top four.
pub open spec fn b64_trailing_ok(s: Seq<u8>) -> bool {
    if s.len() % 4 == 2 {
        b64_val(s[s.len() - 1]) % 16 == 0
    } else if s.len() % 4 == 3 {
        b64_val(s[s.len() - 1]) % 4 == 0
    } else {
        true
    }
}

/// The first output byte of a group: all six bits of the first symbol and
/// the top two of the second.
pub open spec fn b64_byte0(a: u8, b: u8) -> u8 {
    (b64_val(a) * 4 + b64_val(b) / 16) as u8
}

/// The second output byte of a group: the low four bits of the second
/// symbol and the top four of the third.
pub open spec fn b64_byte1(b: u8, c: u8) -> u8 {
    ((b64_val(b) % 16) * 16 + b64_val(c) / 4) as u8
}

/// The third output byte of a group: the low two bits of the third symbol
/// and all six of the fourth.
pub open spec fn b64_byte2(c: u8, d: u8) -> u8 {
    ((b64_val(c) % 4) * 64 + b64_val(d)) as u8
}

/// The bytes encoded by a sequence of Base64 symbols: three bytes per
/// group of four, then one byte from a two-symbol tail or two bytes from
/// a three-symbol tail.
pub open spec fn b64_decode_symbols(s: Seq<u8>) -> Seq<u8>
    decreases s.len(),
{
    if s.len() < 2 {
        Seq::empty()
    } else if s.len() == 2 {
        seq![b64_byte0(s[0], s[1])]
    } else if s.len() == 3 {
        seq![b64_byte0(s[0], s[1]), b64_byte1(s[1], s[2])]
    } else {
        seq![b64_byte0(s[0], s[1]), b64_byte1(s[1], s[2]), b64_byte2(s[2], s[3])]
            + b64_decode_symbols(s.skip(4))
    }
}

/// Unpadded Base64 decoding: succeeds exactly when every byte is a
/// standard symbol, the length is not 1 modulo 4, and the trailing bits
/// of a partial final group are zero.
pub open spec fn spec_b64_decode(s: Seq<u8>) -> Option<Seq<u8>> {
    if all_b64_symbols(s) && s.len() % 4 != 1 && b64_trailing_ok(s) {
        Some(b64_decode_symbols(s))
    } else {
        None
    }
}

/// Relies on the base64 crate's `STANDARD_NO_PAD` engine: standard
/// alphabet, padding bytes refused (`DecodePaddingMode::RequireNone`),
/// trailing bits refused, length 1 modulo 4 refused; otherwise each group
/// of four symbols yields three bytes and a final partial group its
/// leading bytes.
#[verifier::external_body]
pub fn decode_base64_no_pad(input: &[u8]) -> (r: Option<Vec<u8>>)
    ensures
        match r {
            Some(v) => spec_b64_decode(input@) == Some(v@),
            None => spec_b64_decode(input@) is None,
        },
{
    STANDARD_NO_PAD.decode(input).ok()
}

/// Relies on `core::str::from_utf8`, which returns `Ok` exactly when the
/// bytes are valid UTF-8.
#[verifier::external_body]
pub fn is_valid_utf8(v: &[u8]) -> (r: bool)
    ensures
        r == valid_utf8(v@),
{
    core::str::from_utf8(v).is_ok()
}

} // verus!
