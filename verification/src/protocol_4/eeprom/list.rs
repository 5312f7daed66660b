//! List entries in the EEPROM block.

use vstd::prelude::*;
use crate::char_encoders::EepromString;
use crate::client::helpers::length_packet_wrapper::{length_framed, length_packet_wrapper};

verus! {

/// How much a list entry matters, from 1 to 5.
#[derive(Debug, Clone, Copy, PartialEq, Eq)]
pub enum Priority {
    One,
    Two,
    Three,
    Four,
    Five,
}

/// The number of a priority; 0 for none.
pub open spec fn priority_number(priority: Option<Priority>) -> u8 {
    match priority {
        Some(Priority::One) => 1,
        Some(Priority::Two) => 2,
        Some(Priority::Three) => 3,
        Some(Priority::Four) => 4,
        Some(Priority::Five) => 5,
        None => 0,
    }
}

/// The content of a list record: the priority, then the packed entry.
pub open spec fn list_content(priority: u8, entry: Seq<u8>) -> Seq<u8> {
    seq![priority] + entry
}

/// Builds the content of a list record.
pub fn build_list_content(priority: u8, entry: &[u8]) -> (content: Vec<u8>)
    ensures
        content@ == list_content(priority, entry@),
{
    let mut packet: Vec<u8> = Vec::new();
    packet.push(priority);
    packet.extend_from_slice(entry);
    assert(packet@ =~= list_content(priority, entry@));
    packet
}

/// An entry of a list.
pub struct List {
    /// The entry's text.
    pub list_entry: EepromString,
    /// The entry's priority, if it has one.
    pub priority: Option<Priority>,
}

impl List {
    /// The record with its length byte.
    pub open spec fn packet_view(&self) -> Seq<u8> {
        length_framed(list_content(priority_number(self.priority), self.list_entry@))
    }

    /// The number of the priority; 0 for none.
    fn priority_value(&self) -> (value: u8)
        ensures
            value == priority_number(self.priority),
    {
        match self.priority {
            Some(Priority::One) => 1,
            Some(Priority::Two) => 2,
            Some(Priority::Three) => 3,
            Some(Priority::Four) => 4,
            Some(Priority::Five) => 5,
            None => 0,
        }
    }

    /// The record without its length byte.
    fn packet_content(&self) -> (content: Vec<u8>)
        ensures
            content@ == list_content(priority_number(self.priority), self.list_entry@),
    {
        build_list_content(self.priority_value(), self.list_entry.as_bytes())
    }

    /// The record: its length byte, then its content.
    pub fn packet(&self) -> (packet: Vec<u8>)
        ensures
            packet@ == self.packet_view(),
    {
        let content = self.packet_content();
        length_packet_wrapper(content.as_slice())
    }
}

} // verus!
