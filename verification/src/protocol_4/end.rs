//! The end command of protocol 4.

use vstd::prelude::*;
use crate::PacketGenerator;
use crate::helpers::crc_packets_wrapper::{crc_framed_all, wrap_packets_with_crc};
use crate::helpers::{lemma_deep_view_bytes, lemma_deep_view_packets};

verus! {

/// The payload that closes a transmission.
pub open spec fn end_payload() -> Seq<u8> {
    seq![0x21u8]
}

/// Closes a transmission.
pub struct End {}

impl PacketGenerator for End {
    open spec fn sendable(&self) -> bool {
        true
    }

    open spec fn packets_view(&self) -> Seq<Seq<u8>> {
        crc_framed_all(seq![end_payload()])
    }

    fn packets(&self) -> (packets: Vec<Vec<u8>>) {
        broadcast use lemma_deep_view_bytes, lemma_deep_view_packets;

        let mut raw_packet: Vec<u8> = Vec::new();
        raw_packet.push(0x21);
        assert(raw_packet@ =~= end_payload());
        let mut raw_packets: Vec<Vec<u8>> = Vec::new();
        raw_packets.push(raw_packet);
        assert(raw_packets.deep_view() =~= seq![end_payload()]);
        wrap_packets_with_crc(raw_packets)
    }
}

} // verus!
