//! The command that fills the watch's EEPROM.

use vstd::prelude::*;
use crate::PacketGenerator;
use crate::calendar::{civil_of, two_digit_year, year_in_century};
use crate::helpers::eeprom_block::{
    assemble_block, block_packets, earliest, earliest_year_of, lemma_earliest_is_minimum,
    APPOINTMENT_NO_NOTIFICATION,
};
use crate::helpers::lemma_deep_view_bytes;

pub mod anniversary;
pub mod appointment;
pub mod list;
pub mod phone_number;

pub use anniversary::Anniversary;
pub use appointment::Appointment;
pub use list::List;
pub use phone_number::PhoneNumber;

verus! {

/// How long before an appointment the watch announces it.
#[derive(Debug, Clone, Copy, PartialEq, Eq)]
pub enum NotificationMinutes {
    /// At the time of the appointment.
    ZeroMinutes,
    /// 5 minutes before.
    FiveMinutes,
    /// 10 minutes before.
    TenMinutes,
    /// 15 minutes before.
    FifteenMinutes,
    /// 20 minutes before.
    TwentyMinutes,
    /// 25 minutes before.
    TwentyFiveMinutes,
    /// 30 minutes before.
    ThirtyMinutes,
}

/// The code of a notification time: the number of five-minute steps, or
/// 0xFF where appointments are not announced.
pub open spec fn notification_code(minutes: Option<NotificationMinutes>) -> u8 {
    match minutes {
        Some(NotificationMinutes::ZeroMinutes) => 0,
        Some(NotificationMinutes::FiveMinutes) => 1,
        Some(NotificationMinutes::TenMinutes) => 2,
        Some(NotificationMinutes::FifteenMinutes) => 3,
        Some(NotificationMinutes::TwentyMinutes) => 4,
        Some(NotificationMinutes::TwentyFiveMinutes) => 5,
        Some(NotificationMinutes::ThirtyMinutes) => 6,
        None => APPOINTMENT_NO_NOTIFICATION,
    }
}

/// The code of a notification time.
fn notification_minutes_value(minutes: Option<NotificationMinutes>) -> (code: u8)
    ensures
        code == notification_code(minutes),
{
    match minutes {
        Some(NotificationMinutes::ZeroMinutes) => 0,
        Some(NotificationMinutes::FiveMinutes) => 1,
        Some(NotificationMinutes::TenMinutes) => 2,
        Some(NotificationMinutes::FifteenMinutes) => 3,
        Some(NotificationMinutes::TwentyMinutes) => 4,
        Some(NotificationMinutes::TwentyFiveMinutes) => 5,
        Some(NotificationMinutes::ThirtyMinutes) => 6,
        None => APPOINTMENT_NO_NOTIFICATION,
    }
}

/// The records of some appointments.
pub open spec fn appointment_records(appointments: Seq<Appointment>) -> Seq<Seq<u8>> {
    Seq::new(appointments.len(), |i: int| appointments[i].packet_view())
}

/// The records of some anniversaries.
pub open spec fn anniversary_records(anniversaries: Seq<Anniversary>) -> Seq<Seq<u8>> {
    Seq::new(anniversaries.len(), |i: int| anniversaries[i].packet_view())
}

/// The records of some phone numbers.
pub open spec fn phone_records(phone_numbers: Seq<PhoneNumber>) -> Seq<Seq<u8>> {
    Seq::new(phone_numbers.len(), |i: int| phone_numbers[i].packet_view())
}

/// The records of some list entries.
pub open spec fn list_records(lists: Seq<List>) -> Seq<Seq<u8>> {
    Seq::new(lists.len(), |i: int| lists[i].packet_view())
}

/// The years that some appointments fall in.
pub open spec fn appointment_years(appointments: Seq<Appointment>) -> Seq<int> {
    Seq::new(appointments.len(), |i: int| civil_of(appointments[i].time as int).year as int)
}

/// The last two digits of the earliest year that an appointment falls in;
/// 0 where there is no appointment.
pub open spec fn earliest_appointment_year(appointments: Seq<Appointment>) -> u8 {
    year_in_century(earliest(appointment_years(appointments)))
}

/// Everything that goes into the watch's EEPROM.
pub struct Eeprom {
    /// The appointments.
    pub appointments: Vec<Appointment>,
    /// The anniversaries.
    pub anniversaries: Vec<Anniversary>,
    /// The phone numbers.
    pub phone_numbers: Vec<PhoneNumber>,
    /// The list entries.
    pub lists: Vec<List>,
    /// How long before an appointment the watch announces it, if at all.
    pub appointment_notification_minutes: Option<NotificationMinutes>,
}

impl Eeprom {
    /// Whether every appointment and anniversary can be stored.
    pub fn is_sendable(&self) -> (ok: bool)
        ensures
            ok == self.sendable(),
    {
        let mut i: usize = 0;
        while i < self.appointments.len()
            invariant
                i <= self.appointments.len(),
                forall|k: int| 0 <= k < i ==> (#[trigger] self.appointments[k]).sendable(),
            decreases self.appointments.len() - i,
        {
            if !self.appointments[i].is_sendable() {
                return false;
            }
            i += 1;
        }
        let mut j: usize = 0;
        while j < self.anniversaries.len()
            invariant
                j <= self.anniversaries.len(),
                forall|k: int| 0 <= k < j ==> (#[trigger] self.anniversaries[k]).sendable(),
            decreases self.anniversaries.len() - j,
        {
            if !self.anniversaries[j].is_sendable() {
                return false;
            }
            j += 1;
        }
        true
    }

    /// The records of the appointments and the years that they fall in.
    fn appointment_packets(&self) -> (out: (Vec<Vec<u8>>, Vec<i32>))
        requires
            self.sendable(),
        ensures
            out.0.deep_view() == appointment_records(self.appointments@),
            out.1@.map_values(|y: i32| y as int) == appointment_years(self.appointments@),
            forall|k: int| 0 <= k < out.1@.len() ==> #[trigger] out.1@[k] >= 1970,
    {
        let mut records: Vec<Vec<u8>> = Vec::new();
        let mut years: Vec<i32> = Vec::new();
        let mut i: usize = 0;
        while i < self.appointments.len()
            invariant
                i <= self.appointments.len(),
                self.sendable(),
                records.len() == i,
                years.len() == i,
                forall|k: int| 0 <= k < i ==> (#[trigger] records[k])@ == self.appointments[k].packet_view(),
                forall|k: int|
                    0 <= k < i ==> #[trigger] years[k] == civil_of(
                        self.appointments[k].time as int,
                    ).year,
                forall|k: int| 0 <= k < i ==> #[trigger] years[k] >= 1970,
            decreases self.appointments.len() - i,
        {
            records.push(self.appointments[i].packet());
            years.push(self.appointments[i].year());
            i += 1;
        }
        assert(records.deep_view() =~~= appointment_records(self.appointments@)) by {
            assert forall|k: int| 0 <= k < records.len() implies records.deep_view()[k]
                == self.appointments[k].packet_view() by {
                lemma_deep_view_bytes(records@[k]);
            }
        }
        assert(years@.map_values(|y: i32| y as int) =~= appointment_years(self.appointments@));
        (records, years)
    }

    /// The records of the anniversaries.
    fn anniversary_packets(&self) -> (records: Vec<Vec<u8>>)
        requires
            self.sendable(),
        ensures
            records.deep_view() == anniversary_records(self.anniversaries@),
    {
        let mut records: Vec<Vec<u8>> = Vec::new();
        let mut i: usize = 0;
        while i < self.anniversaries.len()
            invariant
                i <= self.anniversaries.len(),
                self.sendable(),
                records.len() == i,
                forall|k: int|
                    0 <= k < i ==> (#[trigger] records[k])@ == self.anniversaries[k].packet_view(),
            decreases self.anniversaries.len() - i,
        {
            records.push(self.anniversaries[i].packet());
            i += 1;
        }
        assert(records.deep_view() =~~= anniversary_records(self.anniversaries@)) by {
            assert forall|k: int| 0 <= k < records.len() implies records.deep_view()[k]
                == self.anniversaries[k].packet_view() by {
                lemma_deep_view_bytes(records@[k]);
            }
        }
        records
    }

    /// The records of the phone numbers.
    fn phone_packets(&self) -> (records: Vec<Vec<u8>>)
        ensures
            records.deep_view() == phone_records(self.phone_numbers@),
    {
        let mut records: Vec<Vec<u8>> = Vec::new();
        let mut i: usize = 0;
        while i < self.phone_numbers.len()
            invariant
                i <= self.phone_numbers.len(),
                records.len() == i,
                forall|k: int|
                    0 <= k < i ==> (#[trigger] records[k])@ == self.phone_numbers[k].packet_view(),
            decreases self.phone_numbers.len() - i,
        {
            records.push(self.phone_numbers[i].packet());
            i += 1;
        }
        assert(records.deep_view() =~~= phone_records(self.phone_numbers@)) by {
            assert forall|k: int| 0 <= k < records.len() implies records.deep_view()[k]
                == self.phone_numbers[k].packet_view() by {
                lemma_deep_view_bytes(records@[k]);
            }
        }
        records
    }

    /// The records of the list entries.
    fn list_packets(&self) -> (records: Vec<Vec<u8>>)
        ensures
            records.deep_view() == list_records(self.lists@),
    {
        let mut records: Vec<Vec<u8>> = Vec::new();
        let mut i: usize = 0;
        while i < self.lists.len()
            invariant
                i <= self.lists.len(),
                records.len() == i,
                forall|k: int| 0 <= k < i ==> (#[trigger] records[k])@ == self.lists[k].packet_view(),
            decreases self.lists.len() - i,
        {
            records.push(self.lists[i].packet());
            i += 1;
        }
        assert(records.deep_view() =~~= list_records(self.lists@)) by {
            assert forall|k: int| 0 <= k < records.len() implies records.deep_view()[k]
                == self.lists[k].packet_view() by {
                lemma_deep_view_bytes(records@[k]);
            }
        }
        records
    }
}

impl PacketGenerator for Eeprom {
    open spec fn sendable(&self) -> bool {
        &&& forall|i: int|
            0 <= i < self.appointments@.len() ==> (#[trigger] self.appointments@[i]).sendable()
        &&& forall|i: int|
            0 <= i < self.anniversaries@.len() ==> (#[trigger] self.anniversaries@[i]).sendable()
    }

    open spec fn packets_view(&self) -> Seq<Seq<u8>> {
        block_packets(
            appointment_records(self.appointments@),
            list_records(self.lists@),
            phone_records(self.phone_numbers@),
            anniversary_records(self.anniversaries@),
            earliest_appointment_year(self.appointments@),
            notification_code(self.appointment_notification_minutes),
        )
    }

    fn packets(&self) -> (packets: Vec<Vec<u8>>)
        ensures
            packets.len() >= 4,
    {
        let (appointment_packets, years) = self.appointment_packets();
        let list_packets = self.list_packets();
        let phone_packets = self.phone_packets();
        let anniversary_packets = self.anniversary_packets();
        let year = earliest_year_of(&years);
        proof {
            let values = appointment_years(self.appointments@);
            if values.len() > 0 {
                lemma_earliest_is_minimum(values);
                let k = choose|k: int| 0 <= k < values.len() && values[k] == earliest(values);
                assert(values[k] == years@[k]);
            }
        }
        let earliest_appointment_year = two_digit_year(year);
        let appointment_notification_minutes_value = notification_minutes_value(
            self.appointment_notification_minutes,
        );
        assemble_block(
            &appointment_packets,
            &list_packets,
            &phone_packets,
            &anniversary_packets,
            earliest_appointment_year,
            appointment_notification_minutes_value,
        )
    }
}

} // verus!
