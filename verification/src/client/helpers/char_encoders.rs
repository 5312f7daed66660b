//! Text to watch character codes, as plain byte vectors.

use vstd::prelude::*;
use vstd::arithmetic::power2::{pow2, lemma_pow2_adds, lemma2_to64};
use crate::big_uint::{bytes_le, le_digits, pack_codes, packed_value};
use crate::char_encoders::{encode_chars, encoded, lowercase, to_lowercase};
pub use crate::char_encoders::{
    CHARS, CHARS_PROTOCOL_6, EEPROM_CHARS, EEPROM_TERMINATOR, INVALID_CHAR, PHONE_CHARS,
};

verus! {

/// The codes of `string_chars` in the standard alphabet.
pub fn chars_for(string_chars: &str, length: usize, pad: bool) -> (codes: Vec<u8>)
    ensures
        codes@ == encoded(lowercase(string_chars@), CHARS@, length as nat, pad),
{
    chars_for_with_map(string_chars, length, pad, CHARS)
}

/// The codes of `string_chars` in the alphabet `char_map`: lower-cased, cut
/// to `length` characters, and with `pad` filled up to `length` with spaces.
pub fn chars_for_with_map(string_chars: &str, length: usize, pad: bool, char_map: &str) -> (codes:
    Vec<u8>)
    ensures
        codes@ == encoded(lowercase(string_chars@), char_map@, length as nat, pad),
{
    let formatted_chars = to_lowercase(string_chars);
    encode_chars(formatted_chars.as_str(), char_map, length, pad)
}

/// The codes of `string_chars` in the protocol 6 alphabet.
pub fn protocol_6_chars_for(string_chars: &str, length: usize, pad: bool) -> (codes: Vec<u8>)
    ensures
        codes@ == encoded(lowercase(string_chars@), CHARS_PROTOCOL_6@, length as nat, pad),
{
    chars_for_with_map(string_chars, length, pad, CHARS_PROTOCOL_6)
}

/// The bytes of text stored in EEPROM: the codes of at most `length`
/// characters, then the terminator, six bits apiece.
pub open spec fn eeprom_bytes(text: Seq<char>, length: nat) -> Seq<u8> {
    bytes_le(packed_value(encoded(text, EEPROM_CHARS@, length, false).push(EEPROM_TERMINATOR), 6))
}

/// Packs `string_chars` for EEPROM, keeping at most `length` characters.
pub fn eeprom_chars_for(string_chars: &str, length: usize) -> (bytes: Vec<u8>)
    requires
        6 * (length + 1) <= usize::MAX,
    ensures
        bytes@ == eeprom_bytes(lowercase(string_chars@), length as nat),
{
    let mut chars = chars_for_with_map(string_chars, length, false, EEPROM_CHARS);
    chars.push(EEPROM_TERMINATOR);
    pack_codes(chars.as_slice(), 6)
}

/// The bytes of a phone number: the codes of at most 12 characters, four
/// bits apiece, with no byte at all for the number 0.
pub open spec fn phone_bytes(text: Seq<char>) -> Seq<u8> {
    le_digits(packed_value(encoded(text, PHONE_CHARS@, 12, false), 4))
}

/// Twelve codes at four bits apiece stay far below 64 bits.
proof fn lemma_packed_nibbles_bound(codes: Seq<u8>)
    requires
        codes.len() <= 12,
    ensures
        packed_value(codes, 4) <= 17 * pow2(4 * codes.len()),
        pow2(4 * codes.len()) <= 0x1_0000_0000_0000,
    decreases codes.len(),
{
    lemma2_to64();
    vstd::arithmetic::power2::lemma2_to64_rest();
    let n = codes.len();
    if n == 0 {
        assert(4 * n == 0);
    } else {
        lemma_packed_nibbles_bound(codes.drop_last());
        lemma_pow2_adds(4 * (n - 1) as nat, 4);
        assert(4 * (n - 1) as nat + 4 == 4 * n);
        let p = pow2(4 * (n - 1) as nat);
        assert(pow2(4 * n) == p * 16);
        assert(codes.last() as nat * p <= 255 * p) by (nonlinear_arith)
            requires
                codes.last() <= 255,
                p >= 0,
        ;
        lemma_pow2_adds(4 * n, (48 - 4 * n) as nat);
        vstd::arithmetic::power2::lemma_pow2_pos((48 - 4 * n) as nat);
        assert(pow2(4 * n) <= pow2(48)) by (nonlinear_arith)
            requires
                pow2(48) == pow2(4 * n) * pow2((48 - 4 * n) as nat),
                pow2((48 - 4 * n) as nat) >= 1,
                pow2(4 * n) >= 0,
        ;
    }
}

/// Writes a number out least significant byte first, with no byte for 0.
pub fn digits_le(value: u64) -> (bytes: Vec<u8>)
    ensures
        bytes@ == le_digits(value as nat),
{
    let mut bytes: Vec<u8> = Vec::new();
    let mut remaining = value;
    while remaining > 0
        invariant
            bytes@ + le_digits(remaining as nat) == le_digits(value as nat),
        decreases remaining,
    {
        let ghost before = bytes@;
        bytes.push((remaining % 256) as u8);
        assert(bytes@ + le_digits((remaining / 256) as nat) =~= before + le_digits(
            remaining as nat,
        ));
        remaining = remaining / 256;
    }
    assert(bytes@ + le_digits(0) =~= bytes@);
    bytes
}

/// Packs the phone number `string_chars`, keeping at most 12 characters.
pub fn phone_chars_for(string_chars: &str) -> (bytes: Vec<u8>)
    ensures
        bytes@ == phone_bytes(lowercase(string_chars@)),
{
    let chars = chars_for_with_map(string_chars, 12, false, PHONE_CHARS);
    proof {
        crate::char_encoders::lemma_encoded_shape(lowercase(string_chars@), PHONE_CHARS@, 12);
        lemma2_to64();
    }
    let mut packed_int: u64 = 0;
    let mut weight: u64 = 1;
    let mut index: usize = 0;
    while index < chars.len()
        invariant
            index <= chars.len() <= 12,
            weight == pow2(4 * index as nat),
            packed_int == packed_value(chars@.take(index as int), 4),
        decreases chars.len() - index,
    {
        proof {
            let next = chars@.take(index as int + 1);
            assert(next.drop_last() =~= chars@.take(index as int));
            lemma_packed_nibbles_bound(chars@.take(index as int));
            lemma_packed_nibbles_bound(next);
            lemma2_to64();
            lemma_pow2_adds(4 * index as nat, 4);
            assert(4 * (index + 1) as nat == 4 * index as nat + 4);
            assert(chars@[index as int] as nat * weight as nat <= 255 * weight as nat)
                by (nonlinear_arith)
                requires
                    chars@[index as int] <= 255,
            ;
        }
        packed_int = packed_int + (chars[index] as u64) * weight;
        weight = weight * 16;
        index += 1;
    }
    assert(chars@.take(chars@.len() as int) =~= chars@);
    digits_le(packed_int)
}

} // verus!
