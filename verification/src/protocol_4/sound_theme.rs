//! The command that loads a sound theme.

use vstd::prelude::*;
use vstd::slice::slice_subrange;
use crate::PacketGenerator;
use crate::helpers::cpacket_paginator::{page_count, paginate_cpackets, paginated};
use crate::helpers::crc_packets_wrapper::{crc_framed_all, wrap_packets_with_crc};
use crate::helpers::{count_byte, join_section, one_packet};

verus! {

/// The bytes per page of section data.
pub const CPACKET_DATA_LENGTH: usize = 32;

/// Whether a theme file starts with the four bytes that mark it.
pub open spec fn has_theme_header(data: Seq<u8>) -> bool {
    data.len() >= 4 && data[0] == 0x25 && data[1] == 0x04 && data[2] == 0x19 && data[3] == 0x69
}

/// The sound data of a theme file: the file without its mark.
pub open spec fn theme_sound_data(data: Seq<u8>) -> Seq<u8> {
    if has_theme_header(data) {
        data.skip(4)
    } else {
        data
    }
}

/// The packet that announces the theme: the command, the number of pages,
/// and where in its 256 bytes of sound memory the watch puts the data.
pub open spec fn theme_section_packet(sound_data: Seq<u8>) -> Seq<u8> {
    seq![
        0x90u8,
        0x03u8,
        count_byte(page_count(sound_data.len(), CPACKET_DATA_LENGTH as nat)),
        ((0x100 - sound_data.len()) % 256) as u8,
    ]
}

/// The payloads of a theme with the sound data `sound_data`: the
/// announcement, the pages, the closing packet.
pub open spec fn theme_payloads(sound_data: Seq<u8>) -> Seq<Seq<u8>> {
    seq![theme_section_packet(sound_data)] + paginated(
        seq![0x91u8, 0x03u8],
        CPACKET_DATA_LENGTH as nat,
        sound_data,
    ) + seq![seq![0x92u8, 0x03u8]]
}

/// The packets of a theme with the sound data `sound_data`.
pub open spec fn theme_packets(sound_data: Seq<u8>) -> Seq<Seq<u8>> {
    crc_framed_all(theme_payloads(sound_data))
}

/// The sound data of the bytes of a theme file: the bytes without the
/// four-byte mark.
pub fn sound_data_of(file: &[u8]) -> (sound_data: &[u8])
    ensures
        sound_data@ == theme_sound_data(file@),
{
    if file.len() >= 4 && file[0] == 0x25 && file[1] == 0x04 && file[2] == 0x19 && file[3]
        == 0x69 {
        let rest = slice_subrange(file, 4, file.len());
        assert(rest@ =~= file@.skip(4));
        rest
    } else {
        file
    }
}

/// Makes the packets that load `sound_data` into the watch.
pub fn sound_theme_packets(sound_data: &[u8]) -> (packets: Vec<Vec<u8>>)
    requires
        sound_data@.len() <= 0x100,
    ensures
        packets.deep_view() == theme_packets(sound_data@),
{
    wrap_packets_with_crc(sound_theme_payloads(sound_data))
}

/// Makes the payloads that load `sound_data` into the watch.
pub fn sound_theme_payloads(sound_data: &[u8]) -> (packets: Vec<Vec<u8>>)
    requires
        sound_data@.len() <= 0x100,
    ensures
        packets.deep_view() == theme_payloads(sound_data@),
{
    let mut data_header: Vec<u8> = Vec::new();
    data_header.push(0x91);
    data_header.push(0x03);
    let payloads = paginate_cpackets(data_header.as_slice(), CPACKET_DATA_LENGTH, sound_data);
    assert(data_header@ =~= seq![0x91u8, 0x03u8]);
    assert(payloads.deep_view().len() == payloads.len());
    let offset: usize = 0x100 - sound_data.len();
    let mut load_sect: Vec<u8> = Vec::new();
    load_sect.push(0x90);
    load_sect.push(0x03);
    load_sect.push((payloads.len() % 256) as u8);
    load_sect.push((offset % 256) as u8);
    assert(load_sect@ =~= theme_section_packet(sound_data@));
    let mut end_packet: Vec<u8> = Vec::new();
    end_packet.push(0x92);
    end_packet.push(0x03);
    assert(end_packet@ =~= seq![0x92u8, 0x03u8]);
    join_section(one_packet(load_sect), payloads, end_packet)
}

/// A set of sounds for the watch.
pub struct SoundTheme {
    /// The bytes of a theme file, with or without its four-byte mark.
    pub sound_theme_data: Vec<u8>,
}

impl SoundTheme {
    /// Whether the sound data fits into the watch's sound memory.
    pub fn is_sendable(&self) -> (ok: bool)
        ensures
            ok == self.sendable(),
    {
        self.sound_data().len() <= 0x100
    }

    /// The sound data: the file's bytes without the mark.
    pub fn sound_data(&self) -> (sound_data: &[u8])
        ensures
            sound_data@ == theme_sound_data(self.sound_theme_data@),
    {
        sound_data_of(self.sound_theme_data.as_slice())
    }
}

impl PacketGenerator for SoundTheme {
    open spec fn sendable(&self) -> bool {
        theme_sound_data(self.sound_theme_data@).len() <= 0x100
    }

    open spec fn packets_view(&self) -> Seq<Seq<u8>> {
        theme_packets(theme_sound_data(self.sound_theme_data@))
    }

    fn packets(&self) -> (packets: Vec<Vec<u8>>) {
        sound_theme_packets(self.sound_data())
    }
}

} // verus!
