//! The command that sets the clock of one time zone.

use vstd::prelude::*;
use crate::PacketGenerator;
use crate::calendar::{
    civil_of, civil_time, in_calendar, two_digit_year, weekday_of, year_in_century, CivilTime,
};
use crate::char_encoders::CharString;
use crate::helpers::crc_packets_wrapper::{crc_framed_all, wrap_packets_with_crc};
use crate::helpers::one_packet;

verus! {

/// How the watch writes a date.
#[derive(Debug, Clone, Copy, PartialEq, Eq)]
pub enum DateFormat {
    /// MM-DD-YY
    MonthDashDayDashYear,
    /// DD-MM-YY
    DayDashMonthDashYear,
    /// YY-MM-DD
    YearDashMonthDashDay,
    /// MM.DD.YY
    MonthDotDayDotYear,
    /// DD.MM.YY
    DayDotMonthDotYear,
    /// YY.MM.DD
    YearDotMonthDotDay,
}

/// The number that the watch knows a date format by. The watch has none
/// numbered 3.
pub open spec fn date_format_code(format: DateFormat) -> u8 {
    match format {
        DateFormat::MonthDashDayDashYear => 0,
        DateFormat::DayDashMonthDashYear => 1,
        DateFormat::YearDashMonthDashDay => 2,
        DateFormat::MonthDotDayDotYear => 4,
        DateFormat::DayDotMonthDotYear => 5,
        DateFormat::YearDotMonthDotDay => 6,
    }
}

impl DateFormat {
    /// The number that the watch knows the format by.
    pub fn code(self) -> (code: u8)
        ensures
            code == date_format_code(self),
    {
        match self {
            DateFormat::MonthDashDayDashYear => 0,
            DateFormat::DayDashMonthDashYear => 1,
            DateFormat::YearDashMonthDashDay => 2,
            DateFormat::MonthDotDayDotYear => 4,
            DateFormat::DayDotMonthDotYear => 5,
            DateFormat::YearDotMonthDotDay => 6,
        }
    }
}

/// The number for a 12 or 24 hour clock: 1 for 12, 2 for 24.
pub open spec fn clock_code(is_24h: bool) -> u8 {
    if is_24h {
        2
    } else {
        1
    }
}

/// The payload of the time command: the command byte, the zone, the time
/// and date fields, the three codes of the zone's name, the weekday counted
/// from Monday, the clock and the date format.
pub open spec fn time_payload(
    zone: u8,
    is_24h: bool,
    format: DateFormat,
    civil: CivilTime,
    name: Seq<u8>,
) -> Seq<u8> {
    seq![
        0x32u8,
        zone,
        civil.second,
        civil.hour,
        civil.minute,
        civil.month,
        civil.day,
        year_in_century(civil.year as int),
    ] + name + seq![civil.weekday, clock_code(is_24h), date_format_code(format)]
}

/// The weekday that the payload carries, behind the codes of the name, is
/// counted from Monday: a time on a Saturday, such as any on 2022-10-15,
/// the day 19280 after the epoch, gives 5.
pub proof fn lemma_time_payload_weekday(
    zone: u8,
    is_24h: bool,
    format: DateFormat,
    secs: int,
    name: Seq<u8>,
)
    ensures
        time_payload(zone, is_24h, format, civil_of(secs), name)[8 + name.len() as int] == weekday_of(
            secs,
        ),
        0 <= weekday_of(secs) <= 6,
        secs / 86_400 == 19_280 ==> weekday_of(secs) == 5,
        weekday_of(secs + 86_400) == (weekday_of(secs) + 1) % 7,
{
}

/// The clock setting of one of the two time zones.
pub struct Time {
    /// The time zone, 1 or 2.
    pub zone: u8,
    /// Whether the watch shows 24 hours.
    pub is_24h: bool,
    /// How the watch writes the date.
    pub date_format: DateFormat,
    /// The time to set, in seconds since 1970-01-01 00:00:00 UTC.
    pub time: i64,
    /// The name of the time zone.
    pub name: CharString<3>,
}

impl Time {
    /// Whether the zone is one that the watch has and the time is one that
    /// it can show.
    pub fn is_sendable(&self) -> (ok: bool)
        ensures
            ok == self.sendable(),
    {
        (self.zone == 1 || self.zone == 2) && 0 <= self.time && self.time
            <= crate::calendar::MAX_UNIX_SECONDS
    }

    /// The payload for a time whose calendar fields are at hand.
    pub fn payload(&self, civil: &CivilTime) -> (payload: Vec<u8>)
        requires
            civil.year >= 0,
        ensures
            payload@ == time_payload(
                self.zone,
                self.is_24h,
                self.date_format,
                *civil,
                self.name.array_view(),
            ),
    {
        let mut raw_packet: Vec<u8> = Vec::new();
        raw_packet.push(0x32);
        raw_packet.push(self.zone);
        raw_packet.push(civil.second);
        raw_packet.push(civil.hour);
        raw_packet.push(civil.minute);
        raw_packet.push(civil.month);
        raw_packet.push(civil.day);
        raw_packet.push(two_digit_year(civil.year));
        raw_packet.extend_from_slice(self.name.as_array().as_slice());
        raw_packet.push(civil.weekday);
        raw_packet.push(if self.is_24h { 2 } else { 1 });
        raw_packet.push(self.date_format.code());
        assert(raw_packet@ =~= time_payload(
            self.zone,
            self.is_24h,
            self.date_format,
            *civil,
            self.name.array_view(),
        ));
        raw_packet
    }
}

impl PacketGenerator for Time {
    open spec fn sendable(&self) -> bool {
        &&& self.zone == 1 || self.zone == 2
        &&& self.time >= 0
        &&& in_calendar(self.time as int)
    }

    open spec fn packets_view(&self) -> Seq<Seq<u8>> {
        crc_framed_all(
            seq![
                time_payload(
                    self.zone,
                    self.is_24h,
                    self.date_format,
                    civil_of(self.time as int),
                    self.name.array_view(),
                ),
            ],
        )
    }

    fn packets(&self) -> (packets: Vec<Vec<u8>>) {
        let civil = civil_time(self.time).unwrap();
        let raw_packet = self.payload(&civil);
        wrap_packets_with_crc(one_packet(raw_packet))
    }
}

} // verus!
