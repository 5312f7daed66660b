//! The command that loads a sound theme.

use vstd::prelude::*;
use crate::PacketGenerator;
use crate::protocol_4::sound_theme::{sound_theme_packets, theme_packets};

verus! {

/// A set of sounds for the watch.
pub struct SoundTheme {
    /// The sound data: a theme file without its four-byte mark.
    pub sound_theme_data: Vec<u8>,
}

impl SoundTheme {
    /// A theme with the sound data `sound_theme_data`.
    pub fn new(sound_theme_data: Vec<u8>) -> (theme: Self)
        ensures
            theme.sound_theme_data == sound_theme_data,
    {
        SoundTheme { sound_theme_data }
    }

    /// Whether the sound data fits into the watch's sound memory.
    pub fn is_sendable(&self) -> (ok: bool)
        ensures
            ok == self.sendable(),
    {
        self.sound_theme_data.len() <= 0x100
    }
}

impl PacketGenerator for SoundTheme {
    open spec fn sendable(&self) -> bool {
        self.sound_theme_data@.len() <= 0x100
    }

    open spec fn packets_view(&self) -> Seq<Seq<u8>> {
        theme_packets(self.sound_theme_data@)
    }

    fn packets(&self) -> (packets: Vec<Vec<u8>>) {
        sound_theme_packets(self.sound_theme_data.as_slice())
    }
}

} // verus!
