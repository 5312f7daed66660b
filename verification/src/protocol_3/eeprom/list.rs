//! List entries in the EEPROM block.

use vstd::prelude::*;
use crate::char_encoders::{eeprom_packed, lowercase, EepromString};
use crate::client::helpers::length_packet_wrapper::{length_framed, length_packet_wrapper};
use crate::protocol_3::eeprom::EepromModel;
use crate::protocol_4::eeprom::list::{build_list_content, list_content};

verus! {

/// Whether a priority is one that an entry can have: none, or 1 to 5.
pub open spec fn valid_priority(priority: Option<u8>) -> bool {
    match priority {
        Some(p) => 1 <= p <= 5,
        None => true,
    }
}

/// The number stored for a priority; 0 for none.
pub open spec fn priority_number(priority: Option<u8>) -> u8 {
    match priority {
        Some(p) => p,
        None => 0,
    }
}

/// An entry of a list.
pub struct List {
    /// The entry's text; the watch keeps its first 31 characters.
    pub list_entry: String,
    /// The entry's priority, 1 to 5, if it has one.
    pub priority: Option<u8>,
}

impl List {
    /// An entry with the text `list_entry` and the priority `priority`.
    pub fn new(list_entry: String, priority: Option<u8>) -> (entry: Self)
        requires
            valid_priority(priority),
        ensures
            entry.list_entry == list_entry,
            entry.priority == priority,
    {
        List { list_entry, priority }
    }

    /// Whether `priority` is one that an entry can have.
    pub fn is_valid_priority(priority: Option<u8>) -> (ok: bool)
        ensures
            ok == valid_priority(priority),
    {
        match priority {
            Some(p) => 1 <= p && p <= 5,
            None => true,
        }
    }

    /// The number stored for the priority; 0 for none.
    fn priority_value(&self) -> (value: u8)
        ensures
            value == priority_number(self.priority),
    {
        match self.priority {
            Some(p) => p,
            None => 0,
        }
    }
}

impl EepromModel for List {
    open spec fn storable(&self) -> bool {
        true
    }

    open spec fn packet_view(&self) -> Seq<u8> {
        length_framed(
            list_content(priority_number(self.priority), eeprom_packed(lowercase(self.list_entry@))),
        )
    }

    fn packet(&self) -> (packet: Vec<u8>) {
        let priority = self.priority_value();
        let list_entry = EepromString::new(self.list_entry.as_str());
        let data = build_list_content(priority, list_entry.as_bytes());
        length_packet_wrapper(data.as_slice())
    }
}

} // verus!
