//! Packet codec for Timex Datalink watches.
//!
//! Organizer data (clock settings, alarms, appointments, anniversaries, phone
//! numbers, lists, sound themes and wrist apps) is turned into the byte
//! packets that the watch reads over its one-way optical or serial link.
//! Every public function states the bytes it produces in its contract.

use vstd::prelude::*;

pub mod big_uint;
pub mod calendar;
pub mod char_encoders;
pub mod client;
pub mod devices;
pub mod helpers;
pub mod protocol_3;
pub mod protocol_4;

pub use protocol_3::Protocol3;
pub use protocol_4::Protocol4;

verus! {

/// Something that is sent to the watch as a list of packets.
pub trait PacketGenerator {
    /// Whether the value can be sent: its numbers lie in the ranges that
    /// the watch knows.
    spec fn sendable(&self) -> bool;

    /// The packets that the value is sent as.
    spec fn packets_view(&self) -> Seq<Seq<u8>>;

    /// Makes the packets, in the order in which they are sent.
    fn packets(&self) -> (packets: Vec<Vec<u8>>)
        requires
            self.sendable(),
        ensures
            packets.deep_view() == self.packets_view(),
    ;
}

} // verus!
