//! Length framing of EEPROM records.

use vstd::prelude::*;

verus! {

/// The length byte of a record with `len` content bytes: the content plus
/// the length byte itself, kept to one byte.
pub open spec fn length_header(len: nat) -> u8 {
    ((len + 1) % 256) as u8
}

/// A record behind its length byte.
pub open spec fn length_framed(packet: Seq<u8>) -> Seq<u8> {
    seq![length_header(packet.len())] + packet
}

/// Puts the length byte in front of `packet`.
pub fn length_packet_wrapper(packet: &[u8]) -> (framed: Vec<u8>)
    ensures
        framed@ == length_framed(packet@),
{
    let header: u8 = ((packet.len() % 256 + 1) % 256) as u8;
    let mut framed: Vec<u8> = Vec::new();
    framed.push(header);
    framed.extend_from_slice(packet);
    framed
}

} // verus!
