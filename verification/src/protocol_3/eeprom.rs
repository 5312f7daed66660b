//! The command that fills the watch's EEPROM.

use vstd::prelude::*;
use crate::PacketGenerator;
use crate::calendar::{civil_of, year_in_century};
use crate::char_encoders::{
    lemma_eeprom_packed_length, lemma_phone_packed_length, lowercase,
};
use crate::helpers::eeprom_block::{
    address_table, block_packets, concat_sections, count_table, data_pages, earliest,
    earliest_year_of, frame_block, header_packet, lemma_block_is_consistent,
    lemma_earliest_is_minimum, section_addresses,
    section_counts, APPOINTMENT_NO_NOTIFICATION,
};
use crate::helpers::lemma_deep_view_bytes;

pub mod anniversary;
pub mod appointment;
pub mod list;
pub mod phone_number;

pub use anniversary::Anniversary;
pub use appointment::Appointment;
pub use list::List;
pub use phone_number::PhoneNumber;

verus! {

/// A record of the EEPROM block.
pub trait EepromModel {
    /// Whether the record can be stored.
    spec fn storable(&self) -> bool;

    /// The record as it is stored: its length byte, then its content.
    spec fn packet_view(&self) -> Seq<u8>;

    /// Makes the stored form of the record.
    fn packet(&self) -> (packet: Vec<u8>)
        requires
            self.storable(),
        ensures
            packet@ == self.packet_view(),
    ;
}

/// Every record starts with its own length: no record is so long that its
/// length byte would wrap round.
pub proof fn lemma_records_start_with_their_length(
    appointment: Appointment,
    anniversary: Anniversary,
    list: List,
    phone_number: PhoneNumber,
)
    ensures
        appointment.packet_view()[0] == appointment.packet_view().len() <= 28,
        anniversary.packet_view()[0] == anniversary.packet_view().len() <= 27,
        list.packet_view()[0] == list.packet_view().len() <= 26,
        phone_number.packet_view()[0] == phone_number.packet_view().len() <= 31,
{
    lemma_eeprom_packed_length(lowercase(appointment.message@));
    lemma_eeprom_packed_length(lowercase(anniversary.anniversary@));
    lemma_eeprom_packed_length(lowercase(list.list_entry@));
    lemma_eeprom_packed_length(lowercase(phone_number.name@));
    lemma_phone_packed_length(
        lowercase(phone_number::number_and_type(phone_number.number@, phone_number.type_code@)),
    );
}

/// Whether all of some records can be stored.
pub open spec fn all_storable<T: EepromModel>(items: Seq<T>) -> bool {
    forall|i: int| 0 <= i < items.len() ==> (#[trigger] items[i]).storable()
}

/// The stored forms of some records.
pub open spec fn records_of<T: EepromModel>(items: Seq<T>) -> Seq<Seq<u8>> {
    Seq::new(items.len(), |i: int| items[i].packet_view())
}

/// Makes the stored forms of some records.
pub fn record_packets<T: EepromModel>(items: &Vec<T>) -> (records: Vec<Vec<u8>>)
    requires
        all_storable(items@),
    ensures
        records.deep_view() == records_of(items@),
{
    let mut records: Vec<Vec<u8>> = Vec::new();
    let mut i: usize = 0;
    while i < items.len()
        invariant
            i <= items.len(),
            all_storable(items@),
            records.len() == i,
            forall|k: int| 0 <= k < i ==> (#[trigger] records[k])@ == items[k].packet_view(),
        decreases items.len() - i,
    {
        records.push(items[i].packet());
        i += 1;
    }
    assert(records.deep_view() =~~= records_of(items@)) by {
        assert forall|k: int| 0 <= k < records.len() implies records.deep_view()[k]
            == items[k].packet_view() by {
            lemma_deep_view_bytes(records@[k]);
        }
    }
    records
}

/// The two-digit years that some appointments fall in.
pub open spec fn two_digit_years(appointments: Seq<Appointment>) -> Seq<int> {
    Seq::new(
        appointments.len(),
        |i: int| year_in_century(civil_of(appointments[i].time as int).year as int) as int,
    )
}

/// The code of a notification time given in minutes: the number of
/// five-minute steps, or 0xFF where appointments are not announced.
pub open spec fn notification_code(minutes: Option<u8>) -> u8 {
    match minutes {
        Some(m) => m / 5,
        None => APPOINTMENT_NO_NOTIFICATION,
    }
}

/// Everything that goes into the watch's EEPROM.
pub struct Eeprom {
    /// The appointments.
    pub appointments: Vec<Appointment>,
    /// The anniversaries.
    pub anniversaries: Vec<Anniversary>,
    /// The phone numbers.
    pub phone_numbers: Vec<PhoneNumber>,
    /// The list entries.
    pub lists: Vec<List>,
    /// How many minutes before an appointment the watch announces it, in
    /// steps of five up to 30, if at all.
    pub appointment_notification_minutes: Option<u8>,
}

impl Eeprom {
    /// An EEPROM block without records.
    pub fn new() -> (eeprom: Self)
        ensures
            eeprom.appointments@.len() == 0,
            eeprom.anniversaries@.len() == 0,
            eeprom.phone_numbers@.len() == 0,
            eeprom.lists@.len() == 0,
            eeprom.appointment_notification_minutes is None,
    {
        Eeprom {
            appointments: Vec::new(),
            anniversaries: Vec::new(),
            phone_numbers: Vec::new(),
            lists: Vec::new(),
            appointment_notification_minutes: None,
        }
    }

    /// Whether every appointment and anniversary can be stored.
    pub fn is_sendable(&self) -> (ok: bool)
        ensures
            ok == self.sendable(),
    {
        let mut i: usize = 0;
        while i < self.appointments.len()
            invariant
                i <= self.appointments.len(),
                forall|k: int| 0 <= k < i ==> (#[trigger] self.appointments[k]).storable(),
            decreases self.appointments.len() - i,
        {
            if !self.appointments[i].is_storable() {
                return false;
            }
            i += 1;
        }
        let mut j: usize = 0;
        while j < self.anniversaries.len()
            invariant
                j <= self.anniversaries.len(),
                forall|k: int| 0 <= k < j ==> (#[trigger] self.anniversaries[k]).storable(),
            decreases self.anniversaries.len() - j,
        {
            if !self.anniversaries[j].is_storable() {
                return false;
            }
            j += 1;
        }
        true
    }

    /// The start addresses of the four sections.
    fn items_addresses(&self) -> (addresses: Vec<u8>)
        requires
            self.sendable(),
        ensures
            addresses@ == section_addresses(
                records_of(self.appointments@).flatten().len(),
                records_of(self.lists@).flatten().len(),
                records_of(self.phone_numbers@).flatten().len(),
            ),
    {
        let appointments = record_packets(&self.appointments);
        let lists = record_packets(&self.lists);
        let phone_numbers = record_packets(&self.phone_numbers);
        let anniversaries = record_packets(&self.anniversaries);
        let (_, lengths) = concat_sections(&appointments, &lists, &phone_numbers, &anniversaries);
        address_table(lengths.0, lengths.1, lengths.2)
    }

    /// How many records each section has.
    fn items_lengths(&self) -> (counts: Vec<u8>)
        ensures
            counts@ == section_counts(
                self.appointments@.len(),
                self.lists@.len(),
                self.phone_numbers@.len(),
                self.anniversaries@.len(),
            ),
    {
        count_table(
            self.appointments.len(),
            self.lists.len(),
            self.phone_numbers.len(),
            self.anniversaries.len(),
        )
    }

    /// The smallest two-digit year that an appointment falls in; 0 where
    /// there is no appointment.
    fn earliest_appointment_year(&self) -> (year: u8)
        requires
            self.sendable(),
        ensures
            year == earliest(two_digit_years(self.appointments@)),
    {
        let mut years: Vec<i32> = Vec::new();
        let mut i: usize = 0;
        while i < self.appointments.len()
            invariant
                i <= self.appointments.len(),
                self.sendable(),
                years.len() == i,
                forall|k: int|
                    0 <= k < i ==> #[trigger] years[k] == two_digit_years(self.appointments@)[k],
                forall|k: int| 0 <= k < i ==> 0 <= #[trigger] years[k] <= 99,
            decreases self.appointments.len() - i,
        {
            let year = self.appointments[i].two_digit_year();
            years.push(year as i32);
            i += 1;
        }
        let ghost values = two_digit_years(self.appointments@);
        assert(years@.map_values(|y: i32| y as int) =~= values);
        let earliest_year = earliest_year_of(&years);
        proof {
            if values.len() > 0 {
                lemma_earliest_is_minimum(values);
                let k = choose|k: int| 0 <= k < values.len() && values[k] == earliest(values);
                assert(values[k] == years@[k]);
            }
        }
        earliest_year as u8
    }

    /// The code of the notification time.
    fn appointment_notification_minutes_value(&self) -> (code: u8)
        ensures
            code == notification_code(self.appointment_notification_minutes),
    {
        match self.appointment_notification_minutes {
            Some(minutes) => minutes / 5,
            None => APPOINTMENT_NO_NOTIFICATION,
        }
    }
}

impl PacketGenerator for Eeprom {
    open spec fn sendable(&self) -> bool {
        &&& all_storable(self.appointments@)
        &&& all_storable(self.anniversaries@)
        &&& all_storable(self.lists@)
        &&& all_storable(self.phone_numbers@)
    }

    open spec fn packets_view(&self) -> Seq<Seq<u8>> {
        block_packets(
            records_of(self.appointments@),
            records_of(self.lists@),
            records_of(self.phone_numbers@),
            records_of(self.anniversaries@),
            earliest(two_digit_years(self.appointments@)) as u8,
            notification_code(self.appointment_notification_minutes),
        )
    }

    fn packets(&self) -> (packets: Vec<Vec<u8>>)
        ensures
            packets.len() >= 4,
    {
        proof {
            lemma_block_is_consistent(
                records_of(self.appointments@),
                records_of(self.lists@),
                records_of(self.phone_numbers@),
                records_of(self.anniversaries@),
                earliest(two_digit_years(self.appointments@)) as u8,
                notification_code(self.appointment_notification_minutes),
            );
        }
        let appointments = record_packets(&self.appointments);
        let lists = record_packets(&self.lists);
        let phone_numbers = record_packets(&self.phone_numbers);
        let anniversaries = record_packets(&self.anniversaries);
        let (all_packets, _) = concat_sections(
            &appointments,
            &lists,
            &phone_numbers,
            &anniversaries,
        );
        let payloads = data_pages(all_packets.as_slice());
        let addresses = self.items_addresses();
        let counts = self.items_lengths();
        let header = header_packet(
            payloads.len(),
            addresses.as_slice(),
            counts.as_slice(),
            self.earliest_appointment_year(),
            self.appointment_notification_minutes_value(),
        );
        let packets = frame_block(header, payloads);
        assert(packets.deep_view().len() == packets.len());
        packets
    }
}

impl Default for Eeprom {
    /// An EEPROM block without records.
    fn default() -> (eeprom: Self)
        ensures
            eeprom.appointments@.len() == 0,
            eeprom.anniversaries@.len() == 0,
            eeprom.phone_numbers@.len() == 0,
            eeprom.lists@.len() == 0,
            eeprom.appointment_notification_minutes is None,
    {
        Self::new()
    }
}

} // verus!
