//! The synchronization run that precedes every transmission.

use vstd::prelude::*;
use crate::PacketGenerator;
use crate::helpers::{lemma_deep_view_bytes, lemma_deep_view_packets};

verus! {

/// The byte that wakes the watch.
pub const PING_BYTE: u8 = 0x78;

/// The byte of the first run, on which the watch finds the bit rate.
pub const SYNC_1_BYTE: u8 = 0x55;

/// The byte of the second run.
pub const SYNC_2_BYTE: u8 = 0xaa;

/// The length of the second run.
pub const SYNC_2_LENGTH: usize = 40;

/// The sync packet: the ping, `length` bytes of the first run, 40 of the
/// second. It carries no length byte and no checksum.
pub open spec fn sync_packet(length: nat) -> Seq<u8> {
    seq![PING_BYTE] + Seq::new(length, |i: int| SYNC_1_BYTE) + Seq::new(
        SYNC_2_LENGTH as nat,
        |i: int| SYNC_2_BYTE,
    )
}

/// The sync packet is 41 bytes longer than its first run, starts with the
/// ping, goes on with the first run and ends in the second.
pub proof fn lemma_sync_packet_shape(length: nat)
    ensures
        sync_packet(length).len() == length + 41,
        sync_packet(length)[0] == PING_BYTE,
        forall|i: int| 1 <= i <= length ==> #[trigger] sync_packet(length)[i] == SYNC_1_BYTE,
        forall|i: int|
            length < i <= length + 40 ==> #[trigger] sync_packet(length)[i] == SYNC_2_BYTE,
{
}

/// Appends `count` copies of `byte`.
pub fn push_run(packet: &mut Vec<u8>, byte: u8, count: usize)
    ensures
        final(packet)@ == old(packet)@ + Seq::new(count as nat, |i: int| byte),
{
    let mut i: usize = 0;
    assert(packet@ =~= old(packet)@ + Seq::new(0, |i: int| byte));
    while i < count
        invariant
            i <= count,
            packet@ == old(packet)@ + Seq::new(i as nat, |k: int| byte),
        decreases count - i,
    {
        packet.push(byte);
        assert(packet@ =~= old(packet)@ + Seq::new((i + 1) as nat, |k: int| byte));
        i += 1;
    }
}

/// Lets the watch find the start and the bit rate of a transmission.
pub struct Sync {
    /// How many bytes the first run has.
    pub length: usize,
}

impl Default for Sync {
    /// A first run of 300 bytes.
    fn default() -> (sync: Self)
        ensures
            sync.length == 300,
    {
        Sync { length: 300 }
    }
}

impl PacketGenerator for Sync {
    open spec fn sendable(&self) -> bool {
        true
    }

    open spec fn packets_view(&self) -> Seq<Seq<u8>> {
        seq![sync_packet(self.length as nat)]
    }

    fn packets(&self) -> (packets: Vec<Vec<u8>>) {
        broadcast use lemma_deep_view_bytes, lemma_deep_view_packets;

        let mut packet: Vec<u8> = Vec::new();
        packet.push(PING_BYTE);
        push_run(&mut packet, SYNC_1_BYTE, self.length);
        push_run(&mut packet, SYNC_2_BYTE, SYNC_2_LENGTH);
        assert(packet@ =~= sync_packet(self.length as nat));
        let mut packets: Vec<Vec<u8>> = Vec::new();
        packets.push(packet);
        assert(packets.deep_view() =~= seq![sync_packet(self.length as nat)]);
        packets
    }
}

} // verus!
