//! The command that sets one of the five alarms.

use vstd::prelude::*;
use crate::PacketGenerator;
use crate::calendar::{civil_of, civil_time, in_calendar, CivilTime};
use crate::char_encoders::CharString;
use crate::helpers::crc_packets_wrapper::{crc_framed_all, wrap_packets_with_crc};
use crate::helpers::{flag, one_packet};

verus! {

/// The payload of the alarm command: the command byte, the alarm's number,
/// hour and minute, two zero bytes, the codes of the message, and the flag
/// for the sound.
pub open spec fn alarm_payload(
    number: u8,
    hour: u8,
    minute: u8,
    message: Seq<u8>,
    audible: bool,
) -> Seq<u8> {
    seq![0x50u8, number, hour, minute, 0u8, 0u8] + message + seq![flag(audible)]
}

/// Builds the alarm payload from its parts.
pub fn build_alarm_payload(number: u8, hour: u8, minute: u8, message: &[u8], audible: bool) -> (payload:
    Vec<u8>)
    ensures
        payload@ == alarm_payload(number, hour, minute, message@, audible),
{
    let mut raw_packet: Vec<u8> = Vec::new();
    raw_packet.push(0x50);
    raw_packet.push(number);
    raw_packet.push(hour);
    raw_packet.push(minute);
    raw_packet.push(0);
    raw_packet.push(0);
    raw_packet.extend_from_slice(message);
    raw_packet.push(if audible { 1 } else { 0 });
    assert(raw_packet@ =~= alarm_payload(number, hour, minute, message@, audible));
    raw_packet
}

/// One of the five alarms.
pub struct Alarm {
    /// The alarm's number, 1 to 5.
    pub number: u8,
    /// Whether the alarm sounds.
    pub audible: bool,
    /// A point in time at the hour and minute of the alarm, in seconds
    /// since 1970-01-01 00:00:00 UTC.
    pub time: i64,
    /// The message that the watch shows, in a buffer of eight codes.
    pub message: CharString<8>,
}

impl Alarm {
    /// Whether the number is one of the five and the time has an hour and a
    /// minute.
    pub fn is_sendable(&self) -> (ok: bool)
        ensures
            ok == self.sendable(),
    {
        1 <= self.number && self.number <= 5 && 0 <= self.time && self.time
            <= crate::calendar::MAX_UNIX_SECONDS
    }

    /// The payload for a time whose calendar fields are at hand.
    pub fn payload(&self, civil: &CivilTime) -> (payload: Vec<u8>)
        ensures
            payload@ == alarm_payload(
                self.number,
                civil.hour,
                civil.minute,
                self.message.array_view(),
                self.audible,
            ),
    {
        build_alarm_payload(
            self.number,
            civil.hour,
            civil.minute,
            self.message.as_array().as_slice(),
            self.audible,
        )
    }
}

impl PacketGenerator for Alarm {
    open spec fn sendable(&self) -> bool {
        &&& 1 <= self.number <= 5
        &&& self.time >= 0
        &&& in_calendar(self.time as int)
    }

    open spec fn packets_view(&self) -> Seq<Seq<u8>> {
        crc_framed_all(
            seq![
                alarm_payload(
                    self.number,
                    civil_of(self.time as int).hour,
                    civil_of(self.time as int).minute,
                    self.message.array_view(),
                    self.audible,
                ),
            ],
        )
    }

    fn packets(&self) -> (packets: Vec<Vec<u8>>) {
        let civil = civil_time(self.time).unwrap();
        let raw_packet = self.payload(&civil);
        wrap_packets_with_crc(one_packet(raw_packet))
    }
}

} // verus!
