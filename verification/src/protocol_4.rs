//! Protocol 4 commands and the session that collects them.

use vstd::prelude::*;
use crate::PacketGenerator;
use crate::helpers::{concat_groups, session_packets};

pub mod alarm;
pub mod eeprom;
pub mod end;
pub mod sound_options;
pub mod sound_theme;
pub mod start;
pub mod sync;
pub mod time;
pub mod wrist_app;

pub use alarm::Alarm;
pub use end::End;
pub use sound_options::SoundOptions;
pub use sound_theme::SoundTheme;
pub use start::Start;
pub use sync::Sync;
pub use time::Time;
pub use wrist_app::WristApp;

verus! {

/// An ordered list of commands for one transmission.
///
/// The watch expects `Sync` and `Start` first and `End` last; the order is
/// the caller's to keep.
pub struct Protocol4 {
    models: Vec<Vec<Vec<u8>>>,
}

impl View for Protocol4 {
    type V = Seq<Seq<Seq<u8>>>;

    /// The packets of each command added so far, in the order of adding.
    closed spec fn view(&self) -> Seq<Seq<Seq<u8>>> {
        self.models.deep_view()
    }
}

impl Protocol4 {
    /// A session without commands.
    pub fn new() -> (session: Self)
        ensures
            session@ == Seq::<Seq<Seq<u8>>>::empty(),
    {
        let session = Protocol4 { models: Vec::new() };
        assert(session.models.deep_view() =~= Seq::<Seq<Seq<u8>>>::empty());
        session
    }

    /// Adds a command behind those added before.
    pub fn add<T: PacketGenerator>(&mut self, model: T)
        requires
            model.sendable(),
        ensures
            final(self)@ == old(self)@.push(model.packets_view()),
    {
        let packets = model.packets();
        self.models.push(packets);
        assert(self.models.deep_view() =~= old(self).models.deep_view().push(
            model.packets_view(),
        ));
    }
}

impl PacketGenerator for Protocol4 {
    open spec fn sendable(&self) -> bool {
        true
    }

    open spec fn packets_view(&self) -> Seq<Seq<u8>> {
        session_packets(self@)
    }

    fn packets(&self) -> (packets: Vec<Vec<u8>>) {
        concat_groups(&self.models)
    }
}

} // verus!
