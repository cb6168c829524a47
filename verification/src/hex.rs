//! Hexadecimal text of byte strings: the mathematical model, and the calls
//! into `bitcoin::hashes::hex` that produce and read it.

use bitcoin::hashes::hex::{FromHex, ToHex};
use vstd::prelude::*;

verus! {

/// The error of `bitcoin::hashes::hex`, carried through unread.
#[verifier::external_type_specification]
#[verifier::external_body]
pub struct ExHexError(bitcoin::hashes::hex::Error);

/// The lower-case hexadecimal digit of a value below sixteen.
pub open spec fn hex_digit(n: int) -> char {
    if n < 10 {
        ('0' as int + n) as char
    } else {
        ('a' as int + n - 10) as char
    }
}

/// The value of a hexadecimal digit of either case, if `c` is one.
pub open spec fn hex_value(c: char) -> Option<int> {
    let n = c as int;
    if '0' as int <= n <= '9' as int {
        Some(n - '0' as int)
    } else if 'a' as int <= n <= 'f' as int {
        Some(n - 'a' as int + 10)
    } else if 'A' as int <= n <= 'F' as int {
        Some(n - 'A' as int + 10)
    } else {
        None
    }
}

/// Two lower-case digits per byte, the high nibble first.
pub open spec fn hex_encoding(bytes: Seq<u8>) -> Seq<char> {
    Seq::new(
        2 * bytes.len(),
        |i: int|
            if i % 2 == 0 {
                hex_digit(bytes[i / 2] as int / 16)
            } else {
                hex_digit(bytes[i / 2] as int % 16)
            },
    )
}

/// Whether `s` is an even number of hexadecimal digits.
pub open spec fn is_hex(s: Seq<char>) -> bool {
    &&& s.len() % 2 == 0
    &&& forall|i: int| 0 <= i < s.len() ==> (#[trigger] hex_value(s[i])) is Some
}

/// The bytes that `s` spells, or `None` where `s` is not hexadecimal.
pub open spec fn hex_decoding(s: Seq<char>) -> Option<Seq<u8>> {
    if is_hex(s) {
        Some(
            Seq::new(
                (s.len() / 2) as nat,
                |i: int| (16 * hex_value(s[2 * i]).unwrap() + hex_value(s[2 * i + 1]).unwrap()) as u8,
            ),
        )
    } else {
        None
    }
}

/// Reading back what was written gives the same bytes.
pub proof fn lemma_hex_round_trip(bytes: Seq<u8>)
    ensures
        hex_decoding(hex_encoding(bytes)) == Some(bytes),
{
    let s = hex_encoding(bytes);
    assert forall|i: int| 0 <= i < s.len() implies (#[trigger] hex_value(s[i])) is Some by {
        let b = bytes[i / 2] as int;
        assert(0 <= b / 16 < 16 && 0 <= b % 16 < 16);
    }
    assert(is_hex(s));
    let d = hex_decoding(s).unwrap();
    assert(d.len() == bytes.len());
    assert forall|i: int| 0 <= i < bytes.len() implies d[i] == bytes[i] by {
        let b = bytes[i] as int;
        assert((2 * i) / 2 == i && (2 * i) % 2 == 0);
        assert((2 * i + 1) / 2 == i && (2 * i + 1) % 2 == 1);
        assert(0 <= b / 16 < 16 && 0 <= b % 16 < 16);
        assert(hex_value(hex_digit(b / 16)) == Some(b / 16));
        assert(hex_value(hex_digit(b % 16)) == Some(b % 16));
        assert(16 * (b / 16) + b % 16 == b);
    }
    assert(d =~= bytes);
}

/// Calls `ToHex::to_hex` of `bitcoin::hashes::hex` on a byte slice, which
/// writes each byte as two lower-case digits.
#[verifier::external_body]
pub(crate) fn to_hex(bytes: &[u8]) -> (text: String)
    ensures
        text@ == hex_encoding(bytes@),
{
    bytes.to_hex()
}

/// Calls `FromHex::from_hex` of `bitcoin::hashes::hex` for `Vec<u8>`. It
/// succeeds exactly on an even number of hexadecimal digits of either case,
/// and then returns the bytes they spell.
#[verifier::external_body]
pub(crate) fn from_hex(text: &str) -> (bytes: Result<Vec<u8>, bitcoin::hashes::hex::Error>)
    ensures
        match bytes {
            Ok(b) => hex_decoding(text@) == Some(b@),
            Err(_) => hex_decoding(text@) is None,
        },
{
    Vec::<u8>::from_hex(text)
}

} // verus!
