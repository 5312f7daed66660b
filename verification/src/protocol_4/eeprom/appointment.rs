//! Appointments in the EEPROM block.

use vstd::prelude::*;
use crate::calendar::{civil_of, civil_time, in_calendar, quarter_hour, CivilTime};
use crate::char_encoders::EepromString;
use crate::client::helpers::length_packet_wrapper::{length_framed, length_packet_wrapper};

verus! {

/// The content of an appointment record: month, day, the quarter hour of
/// the day, and the packed message.
pub open spec fn appointment_content(civil: CivilTime, message: Seq<u8>) -> Seq<u8> {
    seq![civil.month, civil.day, quarter_hour(civil.hour, civil.minute) as u8] + message
}

/// Joins the parts of an appointment record.
pub fn join_appointment_content(month: u8, day: u8, time_15m: u8, message: &[u8]) -> (content: Vec<
    u8,
>)
    ensures
        content@ == seq![month, day, time_15m] + message@,
{
    let mut packet: Vec<u8> = Vec::new();
    packet.push(month);
    packet.push(day);
    packet.push(time_15m);
    packet.extend_from_slice(message);
    assert(packet@ =~= seq![month, day, time_15m] + message@);
    packet
}

/// Builds the content of an appointment record.
pub fn build_appointment_content(civil: &CivilTime, message: &[u8]) -> (content: Vec<u8>)
    requires
        civil.hour <= 23,
        civil.minute <= 59,
    ensures
        content@ == appointment_content(*civil, message@),
{
    let time_15m: u8 = civil.hour * 4 + civil.minute / 15;
    join_appointment_content(civil.month, civil.day, time_15m, message)
}

/// An appointment: a time and what to show at it.
pub struct Appointment {
    /// The time of the appointment, in seconds since 1970-01-01 00:00:00
    /// UTC.
    pub time: i64,
    /// The message.
    pub message: EepromString,
}

impl Appointment {
    /// Whether the time lies in the calendar, from 1970 on.
    pub open spec fn sendable(&self) -> bool {
        self.time >= 0 && in_calendar(self.time as int)
    }

    /// The record with its length byte.
    pub open spec fn packet_view(&self) -> Seq<u8> {
        length_framed(appointment_content(civil_of(self.time as int), self.message@))
    }

    /// Whether the appointment can be stored.
    pub fn is_sendable(&self) -> (ok: bool)
        ensures
            ok == self.sendable(),
    {
        0 <= self.time && self.time <= crate::calendar::MAX_UNIX_SECONDS
    }

    /// The year that the appointment falls in.
    pub fn year(&self) -> (year: i32)
        requires
            self.sendable(),
        ensures
            year == civil_of(self.time as int).year,
            year >= 1970,
    {
        civil_time(self.time).unwrap().year
    }

    /// The record without its length byte.
    fn packet_content(&self) -> (content: Vec<u8>)
        requires
            self.sendable(),
        ensures
            content@ == appointment_content(civil_of(self.time as int), self.message@),
    {
        let civil = civil_time(self.time).unwrap();
        build_appointment_content(&civil, self.message.as_bytes())
    }

    /// The record: its length byte, then its content.
    pub fn packet(&self) -> (packet: Vec<u8>)
        requires
            self.sendable(),
        ensures
            packet@ == self.packet_view(),
    {
        let content = self.packet_content();
        length_packet_wrapper(content.as_slice())
    }
}

} // verus!
