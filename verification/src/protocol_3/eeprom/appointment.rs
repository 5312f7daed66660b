//! Appointments in the EEPROM block.

use vstd::prelude::*;
use crate::calendar::{civil_of, civil_time, in_calendar, quarter_hour};
use crate::char_encoders::{eeprom_packed, lowercase, EepromString};
use crate::client::helpers::length_packet_wrapper::{length_framed, length_packet_wrapper};
use crate::protocol_3::eeprom::EepromModel;
use crate::protocol_4::eeprom::appointment::{appointment_content, join_appointment_content};

verus! {

/// An appointment: a time and what to show at it.
pub struct Appointment {
    /// The time of the appointment, in seconds since 1970-01-01 00:00:00
    /// UTC.
    pub time: i64,
    /// The message; the watch keeps its first 31 characters.
    pub message: String,
}

impl Appointment {
    /// An appointment at `time` with the message `message`.
    pub fn new(time: i64, message: String) -> (appointment: Self)
        ensures
            appointment.time == time,
            appointment.message == message,
    {
        Appointment { time, message }
    }

    /// Whether the appointment can be stored.
    pub fn is_storable(&self) -> (ok: bool)
        ensures
            ok == self.storable(),
    {
        0 <= self.time && self.time <= crate::calendar::MAX_UNIX_SECONDS
    }

    /// The last two digits of the year that the appointment falls in.
    pub fn two_digit_year(&self) -> (year: u8)
        requires
            self.storable(),
        ensures
            year == crate::calendar::year_in_century(civil_of(self.time as int).year as int),
            year <= 99,
    {
        crate::calendar::two_digit_year(civil_time(self.time).unwrap().year)
    }

    /// The quarter hour of the day that the appointment lies in.
    fn time_15m(&self) -> (quarter: u8)
        requires
            self.storable(),
        ensures
            quarter == quarter_hour(
                civil_of(self.time as int).hour,
                civil_of(self.time as int).minute,
            ),
    {
        let dt = civil_time(self.time).unwrap();
        dt.hour * 4 + dt.minute / 15
    }
}

impl EepromModel for Appointment {
    open spec fn storable(&self) -> bool {
        self.time >= 0 && in_calendar(self.time as int)
    }

    open spec fn packet_view(&self) -> Seq<u8> {
        length_framed(
            appointment_content(civil_of(self.time as int), eeprom_packed(lowercase(self.message@))),
        )
    }

    fn packet(&self) -> (packet: Vec<u8>) {
        let dt = civil_time(self.time).unwrap();
        let time_15m = self.time_15m();
        let message = EepromString::new(self.message.as_str());
        let data = join_appointment_content(dt.month, dt.day, time_15m, message.as_bytes());
        length_packet_wrapper(data.as_slice())
    }
}

} // verus!
