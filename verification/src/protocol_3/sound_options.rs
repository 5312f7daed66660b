//! The switches for the hourly chime and the button beep.

use vstd::prelude::*;
use crate::PacketGenerator;
use crate::helpers::crc_packets_wrapper::{crc_framed_all, wrap_packets_with_crc};
use crate::helpers::{flag, one_packet};

verus! {

/// The payload: the command byte, the chime flag, the beep flag.
pub open spec fn sound_options_payload(hourly_chime: bool, button_beep: bool) -> Seq<u8> {
    seq![0x71u8, flag(hourly_chime), flag(button_beep)]
}

/// Which sounds the watch makes by itself.
pub struct SoundOptions {
    /// Chime on the hour.
    pub hourly_chime: bool,
    /// Beep when a button is pressed.
    pub button_beep: bool,
}

impl PacketGenerator for SoundOptions {
    open spec fn sendable(&self) -> bool {
        true
    }

    open spec fn packets_view(&self) -> Seq<Seq<u8>> {
        crc_framed_all(seq![sound_options_payload(self.hourly_chime, self.button_beep)])
    }

    fn packets(&self) -> (packets: Vec<Vec<u8>>) {
        let mut raw_packet: Vec<u8> = Vec::new();
        raw_packet.push(0x71);
        raw_packet.push(if self.hourly_chime { 1 } else { 0 });
        raw_packet.push(if self.button_beep { 1 } else { 0 });
        assert(raw_packet@ =~= sound_options_payload(self.hourly_chime, self.button_beep));
        wrap_packets_with_crc(one_packet(raw_packet))
    }
}

} // verus!
