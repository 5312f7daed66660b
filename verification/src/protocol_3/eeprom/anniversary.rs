//! Anniversaries in the EEPROM block.

use vstd::prelude::*;
use crate::calendar::{civil_of, civil_time, in_calendar};
use crate::char_encoders::{eeprom_packed, lowercase, EepromString};
use crate::client::helpers::length_packet_wrapper::{length_framed, length_packet_wrapper};
use crate::protocol_3::eeprom::EepromModel;
use crate::protocol_4::eeprom::anniversary::{anniversary_content, build_anniversary_content};

verus! {

/// An anniversary: a date and what to show on it.
pub struct Anniversary {
    /// A point in time on the day of the anniversary, in seconds since
    /// 1970-01-01 00:00:00 UTC.
    pub time: i64,
    /// The text; the watch keeps its first 31 characters.
    pub anniversary: String,
}

impl Anniversary {
    /// An anniversary on the day of `time` with the text `anniversary`.
    pub fn new(time: i64, anniversary: String) -> (record: Self)
        ensures
            record.time == time,
            record.anniversary == anniversary,
    {
        Anniversary { time, anniversary }
    }

    /// Whether the anniversary can be stored.
    pub fn is_storable(&self) -> (ok: bool)
        ensures
            ok == self.storable(),
    {
        0 <= self.time && self.time <= crate::calendar::MAX_UNIX_SECONDS
    }
}

impl EepromModel for Anniversary {
    open spec fn storable(&self) -> bool {
        self.time >= 0 && in_calendar(self.time as int)
    }

    open spec fn packet_view(&self) -> Seq<u8> {
        length_framed(
            anniversary_content(
                civil_of(self.time as int).month,
                civil_of(self.time as int).day,
                eeprom_packed(lowercase(self.anniversary@)),
            ),
        )
    }

    fn packet(&self) -> (packet: Vec<u8>) {
        let dt = civil_time(self.time).unwrap();
        let anniversary = EepromString::new(self.anniversary.as_str());
        let data = build_anniversary_content(dt.month, dt.day, anniversary.as_bytes());
        length_packet_wrapper(data.as_slice())
    }
}

} // verus!
