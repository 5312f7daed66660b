//! Checksum framing: a length byte in front, a CRC-16/ARC behind, low byte
//! first.

use vstd::prelude::*;
use crate::helpers::{lemma_deep_view_bytes, lemma_deep_view_packets};

verus! {

/// The CRC-16/ARC checksum of a byte string, as the `crc16` crate computes
/// it for its `ARC` type.
pub uninterp spec fn crc16_arc(data: Seq<u8>) -> u16;

/// Calls `crc16::State::<crc16::ARC>::calculate`. Trusted: the result is the
/// crate's checksum of exactly these bytes, the same on every call.
#[verifier::external_body]
pub(crate) fn crc16_arc_of(data: &[u8]) -> (crc: u16)
    ensures
        crc == crc16_arc(data@),
{
    crc16::State::<crc16::ARC>::calculate(data)
}

/// The length byte of a framed packet: payload, header and footer, kept to
/// one byte.
pub open spec fn crc_header_byte(len: nat) -> u8 {
    ((len + 3) % 256) as u8
}

/// What the checksum is taken over: the length byte, then the payload.
pub open spec fn crc_input(packet: Seq<u8>) -> Seq<u8> {
    seq![crc_header_byte(packet.len())] + packet
}

/// The high byte of a checksum.
pub open spec fn crc_high(crc: u16) -> u8 {
    (crc / 256) as u8
}

/// The low byte of a checksum.
pub open spec fn crc_low(crc: u16) -> u8 {
    (crc % 256) as u8
}

/// The two footer bytes for a checksum: low byte, then high byte.
pub open spec fn footer_of(crc: u16) -> Seq<u8> {
    seq![crc_low(crc), crc_high(crc)]
}

/// A payload framed with a given checksum.
pub open spec fn framed_with(packet: Seq<u8>, crc: u16) -> Seq<u8> {
    crc_input(packet) + footer_of(crc)
}

/// A payload framed with its own checksum.
pub open spec fn crc_framed(packet: Seq<u8>) -> Seq<u8> {
    framed_with(packet, crc16_arc(crc_input(packet)))
}

/// Each payload of a list framed with its own checksum.
pub open spec fn crc_framed_all(packets: Seq<Seq<u8>>) -> Seq<Seq<u8>> {
    Seq::new(packets.len(), |i: int| crc_framed(packets[i]))
}

/// A framed packet is three bytes longer than its payload, and while that
/// length fits in one byte, the first byte of the packet is its own length.
pub proof fn lemma_framed_is_self_describing(packet: Seq<u8>)
    ensures
        crc_framed(packet).len() == packet.len() + 3,
        packet.len() <= 252 ==> crc_framed(packet)[0] == packet.len() + 3,
        crc_framed(packet).subrange(1, 1 + packet.len() as int) == packet,
{
    assert(crc_framed(packet).subrange(1, 1 + packet.len() as int) =~= packet);
}

/// The length byte for `packet`, as a one-byte vector.
fn crc_header(packet: &[u8]) -> (header: Vec<u8>)
    ensures
        header@ == seq![crc_header_byte(packet@.len())],
{
    let byte: u8 = ((packet.len() % 256 + 3) % 256) as u8;
    let mut header: Vec<u8> = Vec::new();
    header.push(byte);
    header
}

/// The footer bytes for a checksum that has been computed: low, then high.
pub fn footer_from_crc(crc: u16) -> (footer: Vec<u8>)
    ensures
        footer@ == footer_of(crc),
{
    let mut footer: Vec<u8> = Vec::new();
    footer.push((crc % 256) as u8);
    footer.push((crc / 256) as u8);
    footer
}

/// Frames a payload with a checksum that has been computed.
pub fn frame_with_crc(packet: &[u8], crc: u16) -> (framed: Vec<u8>)
    ensures
        framed@ == framed_with(packet@, crc),
{
    let mut framed = crc_header(packet);
    let footer = footer_from_crc(crc);
    framed.extend_from_slice(packet);
    framed.extend_from_slice(footer.as_slice());
    framed
}

/// The checksum of a payload: that of its length byte and its bytes.
pub fn checksum_of(packet: &[u8]) -> (crc: u16)
    ensures
        crc == crc16_arc(crc_input(packet@)),
{
    let mut crc_check = crc_header(packet);
    crc_check.extend_from_slice(packet);
    assert(crc_check@ =~= crc_input(packet@));
    crc16_arc_of(crc_check.as_slice())
}

/// The footer for `packet`: the checksum of length byte and payload.
fn crc_footer(packet: &[u8]) -> (footer: Vec<u8>)
    ensures
        footer@ == footer_of(crc16_arc(crc_input(packet@))),
{
    footer_from_crc(checksum_of(packet))
}

/// Frames every packet of the list: length byte, payload, checksum.
pub fn wrap_packets_with_crc(packets: Vec<Vec<u8>>) -> (wrapped: Vec<Vec<u8>>)
    ensures
        wrapped.deep_view() == crc_framed_all(packets.deep_view()),
{
    broadcast use lemma_deep_view_bytes, lemma_deep_view_packets;

    let mut wrapped: Vec<Vec<u8>> = Vec::new();
    let mut i: usize = 0;
    while i < packets.len()
        invariant
            i <= packets.len(),
            wrapped.len() == i,
            forall|j: int| 0 <= j < i ==> (#[trigger] wrapped[j])@ == crc_framed(packets[j]@),
        decreases packets.len() - i,
    {
        let packet = packets[i].as_slice();
        let mut wrapped_packet = crc_header(packet);
        let footer = crc_footer(packet);
        wrapped_packet.extend_from_slice(packet);
        wrapped_packet.extend_from_slice(footer.as_slice());
        wrapped.push(wrapped_packet);
        i += 1;
    }
    assert(wrapped.deep_view() =~~= crc_framed_all(packets.deep_view()));
    wrapped
}

} // verus!
