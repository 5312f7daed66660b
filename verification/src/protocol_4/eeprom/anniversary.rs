//! Anniversaries in the EEPROM block.

use vstd::prelude::*;
use crate::calendar::{civil_of, civil_time, in_calendar};
use crate::char_encoders::EepromString;
use crate::client::helpers::length_packet_wrapper::{length_framed, length_packet_wrapper};

verus! {

/// The content of an anniversary record: month, day, and the packed text.
pub open spec fn anniversary_content(month: u8, day: u8, text: Seq<u8>) -> Seq<u8> {
    seq![month, day] + text
}

/// Builds the content of an anniversary record.
pub fn build_anniversary_content(month: u8, day: u8, text: &[u8]) -> (content: Vec<u8>)
    ensures
        content@ == anniversary_content(month, day, text@),
{
    let mut packet: Vec<u8> = Vec::new();
    packet.push(month);
    packet.push(day);
    packet.extend_from_slice(text);
    assert(packet@ =~= anniversary_content(month, day, text@));
    packet
}

/// An anniversary: a date and what to show on it.
pub struct Anniversary {
    /// A point in time on the day of the anniversary, in seconds since
    /// 1970-01-01 00:00:00 UTC; earlier times are negative.
    pub time: i64,
    /// The text.
    pub anniversary: EepromString,
}

impl Anniversary {
    /// Whether the time lies in the calendar.
    pub open spec fn sendable(&self) -> bool {
        in_calendar(self.time as int)
    }

    /// The record with its length byte.
    pub open spec fn packet_view(&self) -> Seq<u8> {
        length_framed(
            anniversary_content(
                civil_of(self.time as int).month,
                civil_of(self.time as int).day,
                self.anniversary@,
            ),
        )
    }

    /// Whether the anniversary can be stored.
    pub fn is_sendable(&self) -> (ok: bool)
        ensures
            ok == self.sendable(),
    {
        crate::calendar::MIN_UNIX_SECONDS <= self.time && self.time
            <= crate::calendar::MAX_UNIX_SECONDS
    }

    /// The record without its length byte.
    fn packet_content(&self) -> (content: Vec<u8>)
        requires
            self.sendable(),
        ensures
            content@ == anniversary_content(
                civil_of(self.time as int).month,
                civil_of(self.time as int).day,
                self.anniversary@,
            ),
    {
        let civil = civil_time(self.time).unwrap();
        build_anniversary_content(civil.month, civil.day, self.anniversary.as_bytes())
    }

    /// The record: its length byte, then its content.
    pub fn packet(&self) -> (packet: Vec<u8>)
        requires
            self.sendable(),
        ensures
            packet@ == self.packet_view(),
    {
        let content = self.packet_content();
        length_packet_wrapper(content.as_slice())
    }
}

} // verus!
