//! The command that loads a wrist app.

use vstd::prelude::*;
use crate::PacketGenerator;
use crate::helpers::cpacket_paginator::{page_count, paginate_cpackets, paginated};
use crate::helpers::crc_packets_wrapper::{crc_framed_all, wrap_packets_with_crc};
use crate::helpers::zap_file::{code_of_container, extract_code, hex_value, ZapError};
use crate::helpers::{count_byte, join_section};

verus! {

/// The bytes per page of section data.
pub const CPACKET_DATA_LENGTH: usize = 32;

/// Which section of a protocol 4 container holds the app's code.
pub const WRIST_APP_CODE_INDEX: usize = 18;

/// The packet that announces the app: the command, the number of pages,
/// and a 1.
pub open spec fn app_section_packet(data: Seq<u8>) -> Seq<u8> {
    seq![0x90u8, 0x02u8, count_byte(page_count(data.len(), CPACKET_DATA_LENGTH as nat)), 1u8]
}

/// The payloads of an app with the code `data`: the packet that clears the
/// app memory, the announcement, the pages, the closing packet.
pub open spec fn app_payloads(data: Seq<u8>) -> Seq<Seq<u8>> {
    seq![seq![0x93u8, 0x02u8], app_section_packet(data)] + paginated(
        seq![0x91u8, 0x02u8],
        CPACKET_DATA_LENGTH as nat,
        data,
    ) + seq![seq![0x92u8, 0x02u8]]
}

/// The packets of an app with the code `data`.
pub open spec fn app_packets(data: Seq<u8>) -> Seq<Seq<u8>> {
    crc_framed_all(app_payloads(data))
}

/// Makes the packets that load the code `data` into the watch.
pub fn wrist_app_packets(data: &[u8]) -> (packets: Vec<Vec<u8>>)
    ensures
        packets.deep_view() == app_packets(data@),
{
    wrap_packets_with_crc(wrist_app_payloads(data))
}

/// Makes the payloads that load the code `data` into the watch.
pub fn wrist_app_payloads(data: &[u8]) -> (packets: Vec<Vec<u8>>)
    ensures
        packets.deep_view() == app_payloads(data@),
{
    broadcast use crate::helpers::lemma_deep_view_bytes, crate::helpers::lemma_deep_view_packets;

    let mut data_header: Vec<u8> = Vec::new();
    data_header.push(0x91);
    data_header.push(0x02);
    let payloads = paginate_cpackets(data_header.as_slice(), CPACKET_DATA_LENGTH, data);
    assert(data_header@ =~= seq![0x91u8, 0x02u8]);
    assert(payloads.deep_view().len() == payloads.len());
    let mut clear: Vec<u8> = Vec::new();
    clear.push(0x93);
    clear.push(0x02);
    let mut cpacket_sect: Vec<u8> = Vec::new();
    cpacket_sect.push(0x90);
    cpacket_sect.push(0x02);
    cpacket_sect.push((payloads.len() % 256) as u8);
    cpacket_sect.push(1);
    let mut lead: Vec<Vec<u8>> = Vec::new();
    lead.push(clear);
    lead.push(cpacket_sect);
    assert(lead.deep_view() =~~= seq![seq![0x93u8, 0x02u8], app_section_packet(data@)]);
    let mut end_packet: Vec<u8> = Vec::new();
    end_packet.push(0x92);
    end_packet.push(0x02);
    assert(end_packet@ =~= seq![0x92u8, 0x02u8]);
    join_section(lead, payloads, end_packet)
}

/// A small program for the watch.
pub struct WristApp {
    /// The app's code.
    pub wrist_app_data: Vec<u8>,
}

impl WristApp {
    /// Takes the app's code out of the bytes of a container file.
    pub fn parse_zap_file(zap_data: &[u8]) -> (code: Result<Vec<u8>, ZapError>)
        ensures
            match code {
                Ok(bytes) => code_of_container(zap_data@, WRIST_APP_CODE_INDEX as nat) == Ok::<
                    Seq<u8>,
                    ZapError,
                >(bytes@),
                Err(e) => code_of_container(zap_data@, WRIST_APP_CODE_INDEX as nat) == Err::<
                    Seq<u8>,
                    ZapError,
                >(e),
            },
    {
        extract_code(zap_data, WRIST_APP_CODE_INDEX)
    }

    /// The value of a hexadecimal digit.
    pub fn hex_digit_to_value(digit: u8) -> (value: Option<u8>)
        ensures
            value == hex_value(digit),
    {
        crate::helpers::zap_file::hex_digit_to_value(digit)
    }
}

impl PacketGenerator for WristApp {
    open spec fn sendable(&self) -> bool {
        true
    }

    open spec fn packets_view(&self) -> Seq<Seq<u8>> {
        app_packets(self.wrist_app_data@)
    }

    fn packets(&self) -> (packets: Vec<Vec<u8>>) {
        wrist_app_packets(self.wrist_app_data.as_slice())
    }
}

} // verus!
