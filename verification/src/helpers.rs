//! Framing and pagination shared by the command generators.

use vstd::prelude::*;

pub mod cpacket_paginator;
pub mod crc_packets_wrapper;
pub mod eeprom_block;
pub mod zap_file;

verus! {

/// The deep view of a byte vector is its view.
pub broadcast proof fn lemma_deep_view_bytes(v: Vec<u8>)
    ensures
        #[trigger] v.deep_view() == v@,
{
    assert(v.deep_view() =~= v@);
}

/// The deep view of a packet list holds the view of each packet.
pub broadcast proof fn lemma_deep_view_packets(v: Vec<Vec<u8>>, i: int)
    requires
        0 <= i < v@.len(),
    ensures
        #[trigger] v.deep_view()[i] == v@[i]@,
{
    lemma_deep_view_bytes(v@[i]);
}

/// A list of one packet.
pub fn one_packet(packet: Vec<u8>) -> (packets: Vec<Vec<u8>>)
    ensures
        packets.deep_view() == seq![packet@],
{
    let mut packets: Vec<Vec<u8>> = Vec::new();
    packets.push(packet);
    assert(packets.deep_view() =~= seq![packet@]) by {
        lemma_deep_view_bytes(packet);
    }
    packets
}

/// The payloads of one section of the watch's memory: the packets that
/// announce the section, the pages of its data, and the packet that closes
/// it.
pub fn join_section(lead: Vec<Vec<u8>>, payloads: Vec<Vec<u8>>, end: Vec<u8>) -> (packets: Vec<
    Vec<u8>,
>)
    ensures
        packets.deep_view() == lead.deep_view() + payloads.deep_view() + seq![end@],
{
    broadcast use lemma_deep_view_bytes, lemma_deep_view_packets;

    let mut all_packets = lead;
    let mut payloads = payloads;
    let ghost pages = payloads.deep_view();
    all_packets.append(&mut payloads);
    all_packets.push(end);
    assert(all_packets.deep_view() =~= lead.deep_view() + pages + seq![end@]);
    all_packets
}

/// The number of pages of a section, as the one byte that announces it.
pub open spec fn count_byte(count: nat) -> u8 {
    (count % 256) as u8
}

/// 1 for yes, 0 for no.
pub open spec fn flag(on: bool) -> u8 {
    if on {
        1
    } else {
        0
    }
}

/// The packets of a list of commands, command after command.
pub open spec fn session_packets(groups: Seq<Seq<Seq<u8>>>) -> Seq<Seq<u8>> {
    groups.flatten()
}

/// A command added to a session sends its packets behind those of the
/// commands before it, and a session without commands sends none.
pub proof fn lemma_session_extends(groups: Seq<Seq<Seq<u8>>>, added: Seq<Seq<u8>>)
    ensures
        session_packets(groups.push(added)) == session_packets(groups) + added,
        session_packets(Seq::empty()) == Seq::<Seq<u8>>::empty(),
{
    groups.lemma_flatten_push(added);
}

/// Joins the packet lists of a session into one list.
pub fn concat_groups(groups: &Vec<Vec<Vec<u8>>>) -> (packets: Vec<Vec<u8>>)
    ensures
        packets.deep_view() == session_packets(groups.deep_view()),
{
    broadcast use lemma_deep_view_bytes, lemma_deep_view_packets;

    let mut packets: Vec<Vec<u8>> = Vec::new();
    let mut i: usize = 0;
    assert(groups.deep_view().take(0) =~= Seq::<Seq<Seq<u8>>>::empty());
    assert(packets.deep_view() =~= Seq::<Seq<u8>>::empty());
    while i < groups.len()
        invariant
            i <= groups.len(),
            packets.deep_view() == groups.deep_view().take(i as int).flatten(),
        decreases groups.len() - i,
    {
        let group = &groups[i];
        let ghost before = packets.deep_view();
        let mut j: usize = 0;
        while j < group.len()
            invariant
                j <= group.len(),
                packets.deep_view() == before + group.deep_view().take(j as int),
            decreases group.len() - j,
        {
            let ghost prev = packets.deep_view();
            packets.push(group[j].clone());
            assert(packets.deep_view() =~= prev.push(group[j as int].deep_view()));
            assert(group.deep_view().take(j as int + 1) =~= group.deep_view().take(j as int).push(
                group[j as int].deep_view(),
            ));
            j += 1;
        }
        proof {
            assert(group.deep_view().take(group.len() as int) =~= group.deep_view());
            let done = groups.deep_view().take(i as int);
            assert(groups.deep_view().take(i as int + 1) =~= done.push(group.deep_view()));
            done.lemma_flatten_push(group.deep_view());
        }
        i += 1;
    }
    assert(groups.deep_view().take(groups.len() as int) =~= groups.deep_view());
    packets
}

} // verus!
