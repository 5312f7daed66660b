//! The start command of protocol 4.

use vstd::prelude::*;
use crate::PacketGenerator;
use crate::helpers::crc_packets_wrapper::{crc_framed_all, wrap_packets_with_crc};
use crate::helpers::{lemma_deep_view_bytes, lemma_deep_view_packets};

verus! {

/// The payload that opens a protocol 4 transmission.
pub open spec fn start_payload() -> Seq<u8> {
    seq![0x20u8, 0x00u8, 0x00u8, 0x04u8]
}

/// Opens a transmission.
pub struct Start {}

impl PacketGenerator for Start {
    open spec fn sendable(&self) -> bool {
        true
    }

    open spec fn packets_view(&self) -> Seq<Seq<u8>> {
        crc_framed_all(seq![start_payload()])
    }

    fn packets(&self) -> (packets: Vec<Vec<u8>>) {
        broadcast use lemma_deep_view_bytes, lemma_deep_view_packets;

        let mut raw_packet: Vec<u8> = Vec::new();
        raw_packet.push(0x20);
        raw_packet.push(0x00);
        raw_packet.push(0x00);
        raw_packet.push(0x04);
        assert(raw_packet@ =~= start_payload());
        let mut raw_packets: Vec<Vec<u8>> = Vec::new();
        raw_packets.push(raw_packet);
        assert(raw_packets.deep_view() =~= seq![start_payload()]);
        wrap_packets_with_crc(raw_packets)
    }
}

} // verus!
