//! Checksum framing of a list of payloads.

use vstd::prelude::*;
use crate::helpers::crc_packets_wrapper::{
    crc_framed_all, frame_with_crc, framed_with, wrap_packets_with_crc,
};

verus! {

/// Frames a payload with a checksum that has been computed: the length
/// byte, the payload, the low byte of the checksum, its high byte.
pub fn frame_packet(packet: &[u8], crc: u16) -> (framed: Vec<u8>)
    ensures
        framed@ == framed_with(packet@, crc),
{
    frame_with_crc(packet, crc)
}

/// Frames every packet of the list: length byte, payload, checksum.
pub fn crc_packets_wrapper(packets: Vec<Vec<u8>>) -> (wrapped: Vec<Vec<u8>>)
    ensures
        wrapped.deep_view() == crc_framed_all(packets.deep_view()),
{
    wrap_packets_with_crc(packets)
}

} // verus!
