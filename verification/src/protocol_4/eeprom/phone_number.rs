//! Phone numbers in the EEPROM block.

use vstd::prelude::*;
use crate::big_uint::{bytes_le, pack_codes, packed_value};
use crate::char_encoders::{
    char_code, chars_of, code_of, encoded, EepromString, PhoneString, INVALID_CHAR, PHONE_CHARS,
    PHONE_MAX_CHARS,
};
use crate::client::helpers::length_packet_wrapper::{length_framed, length_packet_wrapper};

verus! {

/// What kind of phone a number belongs to.
#[derive(Debug, Clone, Copy, PartialEq, Eq)]
pub enum PhoneType {
    /// A cell phone, shown as `c`.
    Cell,
    /// A phone at home, shown as `h`.
    Home,
    /// A phone at work, shown as `w`.
    Work,
    /// Any other phone, shown as a space.
    Other,
}

/// The character that the watch shows for a kind of phone.
pub open spec fn phone_type_char(phone_type: PhoneType) -> char {
    match phone_type {
        PhoneType::Cell => 'c',
        PhoneType::Home => 'h',
        PhoneType::Work => 'w',
        PhoneType::Other => ' ',
    }
}

/// The code of a character in the phone alphabet.
pub open spec fn phone_code(c: char) -> u8 {
    char_code(PHONE_CHARS@, c)
}

/// What the watch shows for a number, in codes: the codes of the number, a
/// space, and the character of its kind.
pub open spec fn number_with_type(number: Seq<u8>, phone_type: PhoneType) -> Seq<u8> {
    number + seq![phone_code(INVALID_CHAR), phone_code(phone_type_char(phone_type))]
}

/// The first `length` of some codes, filled up to `length` with the code of
/// the space.
pub open spec fn filled(codes: Seq<u8>, length: nat) -> Seq<u8> {
    Seq::new(
        length,
        |i: int|
            if i < codes.len() {
                codes[i]
            } else {
                phone_code(INVALID_CHAR)
            },
    )
}

/// The packed form of what the watch shows for a number: twelve codes,
/// four bits apiece.
pub open spec fn phone_field(number: Seq<u8>, phone_type: PhoneType) -> Seq<u8> {
    bytes_le(packed_value(filled(number_with_type(number, phone_type), PHONE_MAX_CHARS as nat), 4))
}

/// The content of a phone record: the phone field, then the packed name.
pub open spec fn phone_content(number: Seq<u8>, phone_type: PhoneType, name: Seq<u8>) -> Seq<u8> {
    phone_field(number, phone_type) + name
}

/// The phone field of a number is the phone alphabet's packing of the
/// number's text, a space and the character of its kind, cut to twelve
/// characters and filled up with spaces.
pub proof fn lemma_phone_field_is_packed_text(text: Seq<char>, phone_type: PhoneType)
    ensures
        phone_field(
            encoded(text, PHONE_CHARS@, PHONE_MAX_CHARS as nat, false),
            phone_type,
        ) == bytes_le(
            packed_value(
                encoded(
                    text + seq![INVALID_CHAR, phone_type_char(phone_type)],
                    PHONE_CHARS@,
                    PHONE_MAX_CHARS as nat,
                    true,
                ),
                4,
            ),
        ),
{
    let codes = encoded(text, PHONE_CHARS@, PHONE_MAX_CHARS as nat, false);
    let shown = text + seq![INVALID_CHAR, phone_type_char(phone_type)];
    assert(filled(number_with_type(codes, phone_type), PHONE_MAX_CHARS as nat) =~= encoded(
        shown,
        PHONE_CHARS@,
        PHONE_MAX_CHARS as nat,
        true,
    ));
}

/// The first `length` of `codes`, filled up to `length` with the code of
/// the space.
fn phone_chars_for(codes: &Vec<u8>, length: usize) -> (filled_codes: Vec<u8>)
    ensures
        filled_codes@ == filled(codes@, length as nat),
{
    let map = chars_of(PHONE_CHARS);
    let space = code_of(&map, INVALID_CHAR);
    let mut filled_codes: Vec<u8> = Vec::new();
    let mut i: usize = 0;
    while i < length
        invariant
            i <= length,
            space == phone_code(INVALID_CHAR),
            filled_codes@ == filled(codes@, length as nat).take(i as int),
        decreases length - i,
    {
        let code = if i < codes.len() { codes[i] } else { space };
        filled_codes.push(code);
        assert(filled_codes@ =~= filled(codes@, length as nat).take(i as int + 1));
        i += 1;
    }
    assert(filled_codes@ =~= filled(codes@, length as nat));
    filled_codes
}

/// Packs twelve of `codes` at four bits apiece.
fn phone_encoding(codes: &Vec<u8>) -> (bytes: Vec<u8>)
    ensures
        bytes@ == bytes_le(packed_value(filled(codes@, PHONE_MAX_CHARS as nat), 4)),
{
    let char_indices = phone_chars_for(codes, PHONE_MAX_CHARS);
    pack_codes(char_indices.as_slice(), 4)
}

/// A phone number with the name of its owner.
pub struct PhoneNumber {
    /// The owner's name.
    pub name: EepromString,
    /// The number.
    pub number: PhoneString,
    /// The kind of phone.
    pub phone_type: PhoneType,
}

impl PhoneNumber {
    /// The record with its length byte.
    pub open spec fn packet_view(&self) -> Seq<u8> {
        length_framed(phone_content(self.number.codes(), self.phone_type, self.name@))
    }

    /// The character that the watch shows for the kind of phone.
    fn phone_type_to_char(&self) -> (c: char)
        ensures
            c == phone_type_char(self.phone_type),
    {
        match self.phone_type {
            PhoneType::Cell => 'c',
            PhoneType::Home => 'h',
            PhoneType::Work => 'w',
            PhoneType::Other => ' ',
        }
    }

    /// The record without its length byte.
    fn packet_content(&self) -> (content: Vec<u8>)
        ensures
            content@ == phone_content(self.number.codes(), self.phone_type, self.name@),
    {
        let map = chars_of(PHONE_CHARS);
        let mut number_with_type: Vec<u8> = Vec::new();
        number_with_type.extend_from_slice(self.number.as_codes());
        number_with_type.push(code_of(&map, INVALID_CHAR));
        number_with_type.push(code_of(&map, self.phone_type_to_char()));
        assert(number_with_type@ =~= crate::protocol_4::eeprom::phone_number::number_with_type(
            self.number.codes(),
            self.phone_type,
        ));
        let mut packet = phone_encoding(&number_with_type);
        packet.extend_from_slice(self.name.as_bytes());
        packet
    }

    /// The record: its length byte, then its content.
    pub fn packet(&self) -> (packet: Vec<u8>)
        ensures
            packet@ == self.packet_view(),
    {
        let content = self.packet_content();
        length_packet_wrapper(content.as_slice())
    }
}

} // verus!
