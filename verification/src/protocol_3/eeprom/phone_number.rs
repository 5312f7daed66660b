//! Phone numbers in the EEPROM block.

use vstd::prelude::*;
use vstd::string::StringExecFns;
use crate::char_encoders::{eeprom_packed, lowercase, phone_packed, EepromString, PhoneString};
use crate::client::helpers::length_packet_wrapper::{length_framed, length_packet_wrapper};
use crate::protocol_3::eeprom::EepromModel;

verus! {

/// What the watch shows for a number: the number, a space, and the mark of
/// its kind.
pub open spec fn number_and_type(number: Seq<char>, type_code: Seq<char>) -> Seq<char> {
    number + seq![' '] + type_code
}

/// The content of a phone record: the packed number with its kind, then
/// the packed name.
pub open spec fn phone_content(number: Seq<u8>, name: Seq<u8>) -> Seq<u8> {
    number + name
}

/// Joins the two packed fields of a phone record.
pub fn build_phone_content(number: &[u8], name: &[u8]) -> (content: Vec<u8>)
    ensures
        content@ == phone_content(number@, name@),
{
    let mut data: Vec<u8> = Vec::new();
    data.extend_from_slice(number);
    data.extend_from_slice(name);
    data
}

/// A phone number with the name of its owner.
pub struct PhoneNumber {
    /// The owner's name; the watch keeps its first 31 characters.
    pub name: String,
    /// The number.
    pub number: String,
    /// The mark of the kind of phone, such as `H` for home; a space for
    /// none.
    pub type_code: String,
}

impl PhoneNumber {
    /// A number of `name`, of the kind `type_code`, or of no kind.
    pub fn new(name: String, number: String, type_code: Option<String>) -> (record: Self)
        ensures
            record.name == name,
            record.number == number,
            record.type_code@ == match type_code {
                Some(code) => code@,
                None => seq![' '],
            },
    {
        let type_code = match type_code {
            Some(code) => code,
            None => {
                proof {
                    reveal_strlit(" ");
                }
                assert(" "@ =~= seq![' ']);
                String::from_str(" ")
            },
        };
        PhoneNumber { name, number, type_code }
    }

    /// The number, a space, and the mark of its kind.
    fn number_with_type(&self) -> (text: String)
        ensures
            text@ == number_and_type(self.number@, self.type_code@),
    {
        proof {
            reveal_strlit(" ");
        }
        assert(" "@ =~= seq![' ']);
        let mut text = String::from_str(self.number.as_str());
        text.append(" ");
        text.append(self.type_code.as_str());
        text
    }
}

impl EepromModel for PhoneNumber {
    open spec fn storable(&self) -> bool {
        true
    }

    open spec fn packet_view(&self) -> Seq<u8> {
        length_framed(
            phone_content(
                phone_packed(lowercase(number_and_type(self.number@, self.type_code@))),
                eeprom_packed(lowercase(self.name@)),
            ),
        )
    }

    fn packet(&self) -> (packet: Vec<u8>) {
        let number_type = self.number_with_type();
        let phone = PhoneString::new(number_type.as_str());
        let name = EepromString::new(self.name.as_str());
        let data = build_phone_content(phone.as_bytes(), name.as_bytes());
        length_packet_wrapper(data.as_slice())
    }
}

} // verus!
