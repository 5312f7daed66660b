//! The start command of protocol 3.

use vstd::prelude::*;
use crate::PacketGenerator;
use crate::helpers::crc_packets_wrapper::{crc_framed_all, wrap_packets_with_crc};
use crate::helpers::one_packet;

verus! {

/// The payload that opens a protocol 3 transmission.
pub open spec fn start_payload() -> Seq<u8> {
    seq![0x20u8, 0x00u8, 0x00u8, 0x03u8]
}

/// Opens a transmission.
pub struct Start;

impl PacketGenerator for Start {
    open spec fn sendable(&self) -> bool {
        true
    }

    open spec fn packets_view(&self) -> Seq<Seq<u8>> {
        crc_framed_all(seq![start_payload()])
    }

    fn packets(&self) -> (packets: Vec<Vec<u8>>) {
        let mut raw_packet: Vec<u8> = Vec::new();
        raw_packet.push(0x20);
        raw_packet.push(0x00);
        raw_packet.push(0x00);
        raw_packet.push(0x03);
        assert(raw_packet@ =~= start_payload());
        wrap_packets_with_crc(one_packet(raw_packet))
    }
}

} // verus!
