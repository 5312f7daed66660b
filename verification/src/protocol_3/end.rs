//! The end command of protocol 3.

use vstd::prelude::*;
use crate::PacketGenerator;
use crate::helpers::crc_packets_wrapper::{crc_framed_all, wrap_packets_with_crc};
use crate::helpers::one_packet;

verus! {

/// The payload that closes a transmission.
pub open spec fn end_payload() -> Seq<u8> {
    seq![0x21u8]
}

/// Closes a transmission.
pub struct End;

impl PacketGenerator for End {
    open spec fn sendable(&self) -> bool {
        true
    }

    open spec fn packets_view(&self) -> Seq<Seq<u8>> {
        crc_framed_all(seq![end_payload()])
    }

    fn packets(&self) -> (packets: Vec<Vec<u8>>) {
        let mut raw_packet: Vec<u8> = Vec::new();
        raw_packet.push(0x21);
        assert(raw_packet@ =~= end_payload());
        wrap_packets_with_crc(one_packet(raw_packet))
    }
}

} // verus!
