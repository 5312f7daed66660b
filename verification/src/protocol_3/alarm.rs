//! The command that sets one of the five alarms.

use vstd::prelude::*;
use crate::PacketGenerator;
use crate::char_encoders::CharString;
use crate::helpers::crc_packets_wrapper::{crc_framed_all, wrap_packets_with_crc};
use crate::helpers::one_packet;
use crate::protocol_4::alarm::{alarm_payload, build_alarm_payload};

verus! {

/// One of the five alarms.
pub struct Alarm {
    /// The alarm's number, 1 to 5.
    pub number: u8,
    /// Whether the alarm sounds.
    pub audible: bool,
    /// The hour of the alarm.
    pub hour: u8,
    /// The minute of the alarm.
    pub minute: u8,
    /// The message that the watch shows: as many codes as it was made with,
    /// eight where it was padded.
    pub message: CharString<8>,
}

impl Alarm {
    /// Whether the number is one of the five.
    pub fn is_sendable(&self) -> (ok: bool)
        ensures
            ok == self.sendable(),
    {
        1 <= self.number && self.number <= 5
    }
}

impl PacketGenerator for Alarm {
    open spec fn sendable(&self) -> bool {
        1 <= self.number <= 5
    }

    open spec fn packets_view(&self) -> Seq<Seq<u8>> {
        crc_framed_all(
            seq![alarm_payload(self.number, self.hour, self.minute, self.message@, self.audible)],
        )
    }

    fn packets(&self) -> (packets: Vec<Vec<u8>>) {
        let raw_packet = build_alarm_payload(
            self.number,
            self.hour,
            self.minute,
            self.message.as_bytes(),
            self.audible,
        );
        wrap_packets_with_crc(one_packet(raw_packet))
    }
}

} // verus!
