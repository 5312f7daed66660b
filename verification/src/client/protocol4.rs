//! Protocol 4 commands as plain values.
//!
//! Each command is a variant of one enum and is made of numbers and text
//! alone; dates and times are given by their calendar fields.

use vstd::prelude::*;
use vstd::string::StringExecFns;
use crate::calendar::{
    days_from_monday, quarter_hour, unix_seconds_now, weekday_from_monday, year_in_century,
};
use crate::client::helpers::decimal::{append_zero_padded, zero_padded};
use crate::big_uint::{bytes_le, pack_codes, packed_value};
use crate::calendar::two_digit_year;
use crate::char_encoders::{encoded, lemma_encoded_shape, lowercase, CHARS, PHONE_CHARS};
use crate::client::helpers::char_encoders::{
    chars_for, chars_for_with_map, eeprom_bytes, eeprom_chars_for,
};
use crate::helpers::eeprom_block::{
    assemble_payloads, block_payloads, earliest, earliest_year_of, lemma_earliest_is_minimum,
    APPOINTMENT_NO_NOTIFICATION,
};
use crate::helpers::zap_file::{code_of_container, ZapError};
use crate::protocol_3::eeprom::notification_code;
use crate::protocol_4::sound_options::sound_options_payload;
use crate::protocol_4::sound_theme::{
    sound_data_of, sound_theme_payloads, theme_payloads, theme_sound_data,
};
use crate::protocol_4::wrist_app::{app_payloads, wrist_app_payloads, WRIST_APP_CODE_INDEX};
use crate::client::helpers::crc_packets_wrapper::crc_packets_wrapper;
use crate::helpers::crc_packets_wrapper::crc_framed_all;
use crate::client::helpers::length_packet_wrapper::{length_framed, length_packet_wrapper};
use crate::helpers::{lemma_deep_view_bytes, one_packet};
use crate::protocol_4::alarm::{alarm_payload, build_alarm_payload};
use crate::protocol_4::sync::{push_run, sync_packet};
use crate::protocol_4::time::clock_code;

verus! {

/// The command byte that opens a transmission.
pub const CPACKET_START: u8 = 0x20;

/// The command byte that closes a transmission.
pub const CPACKET_END: u8 = 0x21;

/// The command byte that sets the clock.
pub const CPACKET_TIME: u8 = 0x32;

/// The command byte that sets an alarm.
pub const CPACKET_ALARM: u8 = 0x50;

/// The byte that wakes the watch.
pub const PING_BYTE: u8 = 0x78;

/// The byte of the first sync run.
pub const SYNC_1_BYTE: u8 = 0x55;

/// The byte of the second sync run.
pub const SYNC_2_BYTE: u8 = 0xaa;

/// The length of the second sync run.
pub const SYNC_2_LENGTH: usize = 40;

/// Something that is sent to the watch as a list of packets.
pub trait PacketGenerator {
    /// Whether the value can be sent: its numbers lie in the ranges that
    /// the watch knows.
    spec fn sendable(&self) -> bool;

    /// The payloads that the value is sent as, before framing.
    spec fn packets_view(&self) -> Seq<Seq<u8>>;

    /// Makes the payloads, in the order in which they are sent.
    fn packets(&self) -> (packets: Vec<Vec<u8>>)
        requires
            self.sendable(),
        ensures
            packets.deep_view() == self.packets_view(),
    ;

    /// Makes the payloads and frames each with its length and checksum.
    fn packets_with_crc(&self) -> (packets: Vec<Vec<u8>>)
        requires
            self.sendable(),
        ensures
            packets.deep_view() == crc_framed_all(self.packets_view()),
    {
        crc_packets_wrapper(self.packets())
    }
}

/// How the watch writes a date.
#[derive(Debug, Clone)]
pub enum DateFormat {
    /// M-D-Y
    MonthDayYear,
    /// D-M-Y
    DayMonthYear,
    /// Y-M-D
    YearMonthDay,
    /// M.D.Y
    MonthDotDayYear,
    /// D.M.Y
    DayDotMonthYear,
    /// Y.M.D
    YearDotMonthDay,
}

/// The number that the watch knows a date format by. The watch has none
/// numbered 3.
pub open spec fn date_format_code(format: DateFormat) -> u8 {
    match format {
        DateFormat::MonthDayYear => 0,
        DateFormat::DayMonthYear => 1,
        DateFormat::YearMonthDay => 2,
        DateFormat::MonthDotDayYear => 4,
        DateFormat::DayDotMonthYear => 5,
        DateFormat::YearDotMonthDay => 6,
    }
}

/// The short name of a date format.
pub open spec fn date_format_name(format: DateFormat) -> Seq<char> {
    match format {
        DateFormat::MonthDayYear => "M-D-Y"@,
        DateFormat::DayMonthYear => "D-M-Y"@,
        DateFormat::YearMonthDay => "Y-M-D"@,
        DateFormat::MonthDotDayYear => "M.D.Y"@,
        DateFormat::DayDotMonthYear => "D.M.Y"@,
        DateFormat::YearDotMonthDay => "Y.M.D"@,
    }
}

impl Default for DateFormat {
    /// Month, day, year, with dashes.
    fn default() -> (format: Self)
        ensures
            format == DateFormat::MonthDayYear,
    {
        DateFormat::MonthDayYear
    }
}

impl DateFormat {
    /// The short name of the format.
    pub fn as_str(&self) -> (name: &'static str)
        ensures
            name@ == date_format_name(*self),
    {
        match self {
            DateFormat::MonthDayYear => "M-D-Y",
            DateFormat::DayMonthYear => "D-M-Y",
            DateFormat::YearMonthDay => "Y-M-D",
            DateFormat::MonthDotDayYear => "M.D.Y",
            DateFormat::DayDotMonthYear => "D.M.Y",
            DateFormat::YearDotMonthDay => "Y.M.D",
        }
    }

    /// The number that the watch knows the format by.
    pub fn to_code(&self) -> (code: u8)
        ensures
            code == date_format_code(*self),
    {
        match self {
            DateFormat::MonthDayYear => 0,
            DateFormat::DayMonthYear => 1,
            DateFormat::YearMonthDay => 2,
            DateFormat::MonthDotDayYear => 4,
            DateFormat::DayDotMonthYear => 5,
            DateFormat::YearDotMonthDay => 6,
        }
    }
}

/// A date and a time of day, by their calendar fields.
#[derive(Debug, Clone)]
pub struct DateTime {
    pub year: u16,
    pub month: u8,
    pub day: u8,
    pub hour: u8,
    pub minute: u8,
    pub second: u8,
}

impl Default for DateTime {
    /// Midnight on the first of January 2000.
    fn default() -> (time: Self)
        ensures
            time == (DateTime { year: 2000, month: 1, day: 1, hour: 0, minute: 0, second: 0 }),
    {
        Self { year: 2000, month: 1, day: 1, hour: 0, minute: 0, second: 0 }
    }
}

/// A rough date and the exact time of day, in UTC, of the point in time
/// `timestamp` seconds after 1970-01-01 00:00:00: every year is taken to
/// have 365 days and every month 31. Years count in 16 bits.
pub open spec fn rough_date_time(timestamp: u64) -> DateTime {
    let days = timestamp / 86_400;
    DateTime {
        year: ((1970 + days / 365) % 0x1_0000) as u16,
        month: ((days % 365) / 31 + 1) as u8,
        day: ((days % 365) % 31 + 1) as u8,
        hour: ((timestamp / 3_600) % 24) as u8,
        minute: ((timestamp / 60) % 60) as u8,
        second: (timestamp % 60) as u8,
    }
}

/// A date as the watch writes it in `format`: two digits for month and
/// day, four for the year.
pub open spec fn formatted_date(time: DateTime, format: DateFormat) -> Seq<char> {
    let year = zero_padded(time.year as nat, 4);
    let month = zero_padded(time.month as nat, 2);
    let day = zero_padded(time.day as nat, 2);
    match format {
        DateFormat::MonthDayYear => month + seq!['-'] + day + seq!['-'] + year,
        DateFormat::DayMonthYear => day + seq!['-'] + month + seq!['-'] + year,
        DateFormat::YearMonthDay => year + seq!['-'] + month + seq!['-'] + day,
        DateFormat::MonthDotDayYear => month + seq!['.'] + day + seq!['.'] + year,
        DateFormat::DayDotMonthYear => day + seq!['.'] + month + seq!['.'] + year,
        DateFormat::YearDotMonthDay => year + seq!['.'] + month + seq!['.'] + day,
    }
}

/// Three numbers in decimal digits with a separator between them.
fn join_three(first: (u16, usize), second: (u16, usize), third: (u16, usize), separator: &str) -> (text:
    String)
    ensures
        text@ == zero_padded(first.0 as nat, first.1 as nat) + separator@ + zero_padded(
            second.0 as nat,
            second.1 as nat,
        ) + separator@ + zero_padded(third.0 as nat, third.1 as nat),
{
    let mut text = String::from_str("");
    proof {
        reveal_strlit("");
    }
    assert(text@ =~= Seq::<char>::empty());
    append_zero_padded(&mut text, first.0, first.1);
    text.append(separator);
    append_zero_padded(&mut text, second.0, second.1);
    text.append(separator);
    append_zero_padded(&mut text, third.0, third.1);
    assert(text@ =~= zero_padded(first.0 as nat, first.1 as nat) + separator@ + zero_padded(
        second.0 as nat,
        second.1 as nat,
    ) + separator@ + zero_padded(third.0 as nat, third.1 as nat));
    text
}

impl DateTime {
    /// The date and time with the given fields.
    pub fn new(year: u16, month: u8, day: u8, hour: u8, minute: u8, second: u8) -> (time: Self)
        ensures
            time == (DateTime { year, month, day, hour, minute, second }),
    {
        Self { year, month, day, hour, minute, second }
    }

    /// The rough date and the time of day of the system clock.
    pub fn now() -> (time: Self)
        ensures
            exists|timestamp: u64| time == rough_date_time(timestamp),
    {
        let timestamp = unix_seconds_now();
        Self::from_unix_seconds(timestamp)
    }

    /// The rough date and the time of day of a point in time.
    pub fn from_unix_seconds(timestamp: u64) -> (time: Self)
        ensures
            time == rough_date_time(timestamp),
    {
        let second = (timestamp % 60) as u8;
        let minute = ((timestamp / 60) % 60) as u8;
        let hour = ((timestamp / 3600) % 24) as u8;
        let days_since_epoch = timestamp / 86400;
        let year = ((1970 + (days_since_epoch / 365) % 0x1_0000) % 0x1_0000) as u16;
        let day = ((days_since_epoch % 365) % 31 + 1) as u8;
        let month = (((days_since_epoch % 365) / 31) + 1) as u8;
        Self { year, month, day, hour, minute, second }
    }

    /// The date as the watch writes it in `format`.
    pub fn format(&self, format: &DateFormat) -> (text: String)
        ensures
            text@ == formatted_date(*self, *format),
    {
        proof {
            reveal_strlit("-");
            reveal_strlit(".");
        }
        assert("-"@ =~= seq!['-'] && "."@ =~= seq!['.']);
        let year = (self.year, 4usize);
        let month = (self.month as u16, 2usize);
        let day = (self.day as u16, 2usize);
        match format {
            DateFormat::MonthDayYear => join_three(month, day, year, "-"),
            DateFormat::DayMonthYear => join_three(day, month, year, "-"),
            DateFormat::YearMonthDay => join_three(year, month, day, "-"),
            DateFormat::MonthDotDayYear => join_three(month, day, year, "."),
            DateFormat::DayDotMonthYear => join_three(day, month, year, "."),
            DateFormat::YearDotMonthDay => join_three(year, month, day, "."),
        }
    }
}

/// A time of day.
#[derive(Debug, Clone)]
pub struct TimeOfDay {
    pub hour: u8,
    pub minute: u8,
}

impl Default for TimeOfDay {
    /// Midnight.
    fn default() -> (time: Self)
        ensures
            time == (TimeOfDay { hour: 0, minute: 0 }),
    {
        Self { hour: 0, minute: 0 }
    }
}

/// The time of day, in UTC, of the point in time `timestamp` seconds after
/// 1970-01-01 00:00:00.
pub open spec fn time_of_day(timestamp: u64) -> TimeOfDay {
    TimeOfDay { hour: ((timestamp / 3_600) % 24) as u8, minute: ((timestamp / 60) % 60) as u8 }
}

/// A time of day on a 24 hour clock: two digits, a colon, two digits.
pub open spec fn formatted_time(time: TimeOfDay) -> Seq<char> {
    zero_padded(time.hour as nat, 2) + seq![':'] + zero_padded(time.minute as nat, 2)
}

/// The hour that a 12 hour clock shows.
pub open spec fn hour_of_12(hour: u8) -> u8 {
    if hour == 0 {
        12
    } else if hour > 12 {
        (hour - 12) as u8
    } else {
        hour
    }
}

/// A time of day on a 12 hour clock, with AM before noon and PM from noon
/// on.
pub open spec fn formatted_time_12h(time: TimeOfDay) -> Seq<char> {
    zero_padded(hour_of_12(time.hour) as nat, 2) + seq![':'] + zero_padded(time.minute as nat, 2)
        + (if time.hour < 12 {
        seq![' ', 'A', 'M']
    } else {
        seq![' ', 'P', 'M']
    })
}

impl TimeOfDay {
    /// The time of day `hour`:`minute`.
    pub fn new(hour: u8, minute: u8) -> (time: Self)
        ensures
            time == (TimeOfDay { hour, minute }),
    {
        Self { hour, minute }
    }

    /// The time of day of the system clock.
    pub fn now() -> (time: Self)
        ensures
            exists|timestamp: u64| time == time_of_day(timestamp),
    {
        let timestamp = unix_seconds_now();
        Self::from_unix_seconds(timestamp)
    }

    /// The time of day of a point in time.
    pub fn from_unix_seconds(timestamp: u64) -> (time: Self)
        ensures
            time == time_of_day(timestamp),
    {
        let minute = ((timestamp / 60) % 60) as u8;
        let hour = ((timestamp / 3600) % 24) as u8;
        Self { hour, minute }
    }

    /// The time on a 24 hour clock.
    pub fn format(&self) -> (text: String)
        ensures
            text@ == formatted_time(*self),
    {
        proof {
            reveal_strlit("");
            reveal_strlit(":");
        }
        let mut text = String::from_str("");
        assert(text@ =~= Seq::<char>::empty());
        append_zero_padded(&mut text, self.hour as u16, 2);
        text.append(":");
        append_zero_padded(&mut text, self.minute as u16, 2);
        assert(text@ =~= formatted_time(*self));
        text
    }

    /// The time on a 12 hour clock.
    pub fn format_12h(&self) -> (text: String)
        ensures
            text@ == formatted_time_12h(*self),
    {
        proof {
            reveal_strlit("");
            reveal_strlit(":");
            reveal_strlit(" AM");
            reveal_strlit(" PM");
        }
        let period = if self.hour < 12 { " AM" } else { " PM" };
        let display_hour = if self.hour == 0 {
            12
        } else if self.hour > 12 {
            self.hour - 12
        } else {
            self.hour
        };
        let mut text = String::from_str("");
        assert(text@ =~= Seq::<char>::empty());
        append_zero_padded(&mut text, display_hour as u16, 2);
        text.append(":");
        append_zero_padded(&mut text, self.minute as u16, 2);
        text.append(period);
        assert(text@ =~= formatted_time_12h(*self));
        text
    }
}

/// The bytes of a sound theme file.
#[derive(Debug, Clone, Default)]
pub struct SoundThemeData {
    pub data: Vec<u8>,
}

/// The bytes of a wrist app container file.
#[derive(Debug, Clone, Default)]
pub struct WristAppData {
    pub data: Vec<u8>,
}

/// The content of an appointment record: month, day, the quarter hour of
/// the day, and the packed message.
pub open spec fn appointment_packet(time: DateTime, message: Seq<char>) -> Seq<u8> {
    seq![time.month, time.day, quarter_hour(time.hour, time.minute) as u8] + eeprom_bytes(
        lowercase(message),
        31,
    )
}

/// An appointment: a time and what to show at it.
#[derive(Debug, Clone, Default)]
pub struct Appointment {
    pub time: DateTime,
    pub message: String,
}

impl Appointment {
    /// An appointment at `time` with the message `message`.
    pub fn new(time: DateTime, message: String) -> (appointment: Self)
        ensures
            appointment.time == time,
            appointment.message == message,
    {
        Self { time, message }
    }

    /// Whether the quarter hour of the appointment fits in a byte, as it
    /// does for every time of day.
    pub open spec fn storable(&self) -> bool {
        quarter_hour(self.time.hour, self.time.minute) <= 255
    }

    /// Whether the appointment can be stored.
    pub fn is_storable(&self) -> (ok: bool)
        ensures
            ok == self.storable(),
    {
        let quarter: u16 = self.time.hour as u16 * 4 + self.time.minute as u16 / 15;
        quarter <= 255
    }

    /// The record without its length byte.
    pub fn packet(&self) -> (packet: Vec<u8>)
        requires
            self.storable(),
        ensures
            packet@ == appointment_packet(self.time, self.message@),
    {
        let mut packet: Vec<u8> = Vec::new();
        packet.push(self.time.month);
        packet.push(self.time.day);
        packet.push(self.time_15m());
        let message_chars = eeprom_chars_for(self.message.as_str(), 31);
        packet.extend_from_slice(message_chars.as_slice());
        assert(packet@ =~= appointment_packet(self.time, self.message@));
        packet
    }

    /// The record with its length byte in front.
    pub fn packet_with_length(&self) -> (packet: Vec<u8>)
        requires
            self.storable(),
        ensures
            packet@ == length_framed(appointment_packet(self.time, self.message@)),
    {
        length_packet_wrapper(self.packet().as_slice())
    }

    /// The quarter hour of the day that the appointment lies in.
    fn time_15m(&self) -> (quarter: u8)
        requires
            self.storable(),
        ensures
            quarter == quarter_hour(self.time.hour, self.time.minute),
    {
        self.time.hour * 4 + self.time.minute / 15
    }
}

/// The content of an anniversary record: month, day, and the packed text.
pub open spec fn anniversary_packet(time: DateTime, anniversary: Seq<char>) -> Seq<u8> {
    seq![time.month, time.day] + eeprom_bytes(lowercase(anniversary), 31)
}

/// An anniversary: a date and what to show on it.
#[derive(Debug, Clone, Default)]
pub struct Anniversary {
    pub time: DateTime,
    pub anniversary: String,
}

impl Anniversary {
    /// An anniversary on the day of `time` with the text `anniversary`.
    pub fn new(time: DateTime, anniversary: String) -> (record: Self)
        ensures
            record.time == time,
            record.anniversary == anniversary,
    {
        Self { time, anniversary }
    }

    /// The record without its length byte.
    pub fn packet(&self) -> (packet: Vec<u8>)
        ensures
            packet@ == anniversary_packet(self.time, self.anniversary@),
    {
        let mut packet: Vec<u8> = Vec::new();
        packet.push(self.time.month);
        packet.push(self.time.day);
        let anniversary_chars = eeprom_chars_for(self.anniversary.as_str(), 31);
        packet.extend_from_slice(anniversary_chars.as_slice());
        assert(packet@ =~= anniversary_packet(self.time, self.anniversary@));
        packet
    }

    /// The record with its length byte in front.
    pub fn packet_with_length(&self) -> (packet: Vec<u8>)
        ensures
            packet@ == length_framed(anniversary_packet(self.time, self.anniversary@)),
    {
        length_packet_wrapper(self.packet().as_slice())
    }
}

/// The content of a phone record: the number, a space and the mark of its
/// kind, cut to twelve characters, filled up with spaces and packed four
/// bits apiece; then the packed name.
pub open spec fn phone_number_packet(name: Seq<char>, number: Seq<char>, type_: Seq<char>) -> Seq<
    u8,
> {
    bytes_le(
        packed_value(encoded(lowercase(number + seq![' '] + type_), PHONE_CHARS@, 12, true), 4),
    ) + eeprom_bytes(lowercase(name), 31)
}

/// A phone number with the name of its owner.
#[derive(Debug, Clone, Default)]
pub struct PhoneNumber {
    pub name: String,
    pub number: String,
    /// The mark of the kind of phone, such as `h` for home; nothing for
    /// none.
    pub type_: String,
}

impl PhoneNumber {
    /// The record without its length byte.
    pub fn packet(&self) -> (packet: Vec<u8>)
        ensures
            packet@ == phone_number_packet(self.name@, self.number@, self.type_@),
    {
        proof {
            reveal_strlit(" ");
        }
        assert(" "@ =~= seq![' ']);
        let mut number_with_type = String::from_str(self.number.as_str());
        number_with_type.append(" ");
        number_with_type.append(self.type_.as_str());
        let codes = chars_for_with_map(number_with_type.as_str(), 12, true, PHONE_CHARS);
        proof {
            lemma_encoded_shape(lowercase(number_with_type@), PHONE_CHARS@, 12);
        }
        let mut packet = pack_codes(codes.as_slice(), 4);
        let name_chars = eeprom_chars_for(self.name.as_str(), 31);
        packet.extend_from_slice(name_chars.as_slice());
        packet
    }

    /// The record with its length byte in front.
    pub fn packet_with_length(&self) -> (packet: Vec<u8>)
        ensures
            packet@ == length_framed(
                phone_number_packet(self.name@, self.number@, self.type_@),
            ),
    {
        length_packet_wrapper(self.packet().as_slice())
    }
}

/// The content of a list record: the priority, then the packed entry.
pub open spec fn list_packet(list_entry: Seq<char>, priority: u8) -> Seq<u8> {
    seq![priority] + eeprom_bytes(lowercase(list_entry), 31)
}

/// An entry of a list.
#[derive(Debug, Clone, Default)]
pub struct List {
    pub list_entry: String,
    /// The priority, 1 to 5; 0 for none.
    pub priority: u8,
}

impl List {
    /// The record without its length byte.
    pub fn packet(&self) -> (packet: Vec<u8>)
        ensures
            packet@ == list_packet(self.list_entry@, self.priority),
    {
        let mut packet: Vec<u8> = Vec::new();
        packet.push(self.priority);
        let entry_chars = eeprom_chars_for(self.list_entry.as_str(), 31);
        packet.extend_from_slice(entry_chars.as_slice());
        assert(packet@ =~= list_packet(self.list_entry@, self.priority));
        packet
    }

    /// The record with its length byte in front.
    pub fn packet_with_length(&self) -> (packet: Vec<u8>)
        ensures
            packet@ == length_framed(list_packet(self.list_entry@, self.priority)),
    {
        length_packet_wrapper(self.packet().as_slice())
    }
}

/// A record of the EEPROM block.
pub trait EepromRecord {
    /// Whether the record's numbers lie in the ranges that the watch knows.
    spec fn fits(&self) -> bool;

    /// The record as it is stored: its length byte, then its content.
    spec fn record_view(&self) -> Seq<u8>;

    /// Whether the record can be stored.
    fn is_fit(&self) -> (ok: bool)
        ensures
            ok == self.fits(),
    ;

    /// Makes the stored form of the record.
    fn record(&self) -> (record: Vec<u8>)
        requires
            self.fits(),
        ensures
            record@ == self.record_view(),
    ;
}

impl EepromRecord for Appointment {
    open spec fn fits(&self) -> bool {
        self.storable()
    }

    open spec fn record_view(&self) -> Seq<u8> {
        length_framed(appointment_packet(self.time, self.message@))
    }

    fn is_fit(&self) -> (ok: bool) {
        self.is_storable()
    }

    fn record(&self) -> (record: Vec<u8>) {
        self.packet_with_length()
    }
}

impl EepromRecord for Anniversary {
    open spec fn fits(&self) -> bool {
        true
    }

    open spec fn record_view(&self) -> Seq<u8> {
        length_framed(anniversary_packet(self.time, self.anniversary@))
    }

    fn is_fit(&self) -> (ok: bool) {
        true
    }

    fn record(&self) -> (record: Vec<u8>) {
        self.packet_with_length()
    }
}

impl EepromRecord for PhoneNumber {
    open spec fn fits(&self) -> bool {
        true
    }

    open spec fn record_view(&self) -> Seq<u8> {
        length_framed(phone_number_packet(self.name@, self.number@, self.type_@))
    }

    fn is_fit(&self) -> (ok: bool) {
        true
    }

    fn record(&self) -> (record: Vec<u8>) {
        self.packet_with_length()
    }
}

impl EepromRecord for List {
    /// A priority is 1 to 5, or 0 for none.
    open spec fn fits(&self) -> bool {
        self.priority <= 5
    }

    open spec fn record_view(&self) -> Seq<u8> {
        length_framed(list_packet(self.list_entry@, self.priority))
    }

    fn is_fit(&self) -> (ok: bool) {
        self.priority <= 5
    }

    fn record(&self) -> (record: Vec<u8>) {
        self.packet_with_length()
    }
}

/// Whether all of some records can be stored.
pub open spec fn all_fit<T: EepromRecord>(items: Seq<T>) -> bool {
    forall|i: int| 0 <= i < items.len() ==> (#[trigger] items[i]).fits()
}

/// The stored forms of some records.
pub open spec fn records_of<T: EepromRecord>(items: Seq<T>) -> Seq<Seq<u8>> {
    Seq::new(items.len(), |i: int| items[i].record_view())
}

/// Whether all of some records can be stored.
pub fn check_records<T: EepromRecord>(items: &Vec<T>) -> (ok: bool)
    ensures
        ok == all_fit(items@),
{
    let mut i: usize = 0;
    while i < items.len()
        invariant
            i <= items.len(),
            forall|k: int| 0 <= k < i ==> (#[trigger] items@[k]).fits(),
        decreases items.len() - i,
    {
        if !items[i].is_fit() {
            assert(!items@[i as int].fits());
            return false;
        }
        i += 1;
    }
    true
}

/// Makes the stored forms of some records.
pub fn make_records<T: EepromRecord>(items: &Vec<T>) -> (records: Vec<Vec<u8>>)
    requires
        all_fit(items@),
    ensures
        records.deep_view() == records_of(items@),
{
    let mut records: Vec<Vec<u8>> = Vec::new();
    let mut i: usize = 0;
    while i < items.len()
        invariant
            i <= items.len(),
            all_fit(items@),
            records.len() == i,
            forall|k: int| 0 <= k < i ==> (#[trigger] records[k])@ == items[k].record_view(),
        decreases items.len() - i,
    {
        records.push(items[i].record());
        i += 1;
    }
    assert(records.deep_view() =~~= records_of(items@)) by {
        assert forall|k: int| 0 <= k < records.len() implies records.deep_view()[k]
            == items[k].record_view() by {
            lemma_deep_view_bytes(records@[k]);
        }
    }
    records
}

/// The years that some appointments fall in.
pub open spec fn appointment_years(appointments: Seq<Appointment>) -> Seq<int> {
    Seq::new(appointments.len(), |i: int| appointments[i].time.year as int)
}

/// The last two digits of the earliest year that an appointment falls in;
/// 0 where there is no appointment.
pub open spec fn earliest_appointment_year(appointments: Seq<Appointment>) -> u8 {
    year_in_century(earliest(appointment_years(appointments)))
}

/// The last two digits of the earliest year that an appointment falls in.
pub fn earliest_year(appointments: &Vec<Appointment>) -> (year: u8)
    ensures
        year == earliest_appointment_year(appointments@),
{
    let mut years: Vec<i32> = Vec::new();
    let mut i: usize = 0;
    while i < appointments.len()
        invariant
            i <= appointments.len(),
            years.len() == i,
            forall|k: int| 0 <= k < i ==> #[trigger] years[k] == appointments[k].time.year,
        decreases appointments.len() - i,
    {
        years.push(appointments[i].time.year as i32);
        i += 1;
    }
    let ghost values = appointment_years(appointments@);
    assert(years@.map_values(|y: i32| y as int) =~= values);
    let year = earliest_year_of(&years);
    proof {
        if values.len() > 0 {
            lemma_earliest_is_minimum(values);
            let k = choose|k: int| 0 <= k < values.len() && values[k] == earliest(values);
            assert(values[k] == years@[k]);
        }
    }
    two_digit_year(year)
}

/// The payloads of the EEPROM block for its records: the clearing packet,
/// the header, the data packets, the closing packet.
pub open spec fn eeprom_payloads(
    appointments: Seq<Appointment>,
    anniversaries: Seq<Anniversary>,
    phone_numbers: Seq<PhoneNumber>,
    lists: Seq<List>,
    appointment_notification_minutes: Option<u8>,
) -> Seq<Seq<u8>> {
    block_payloads(
        records_of(appointments),
        records_of(lists),
        records_of(phone_numbers),
        records_of(anniversaries),
        earliest_appointment_year(appointments),
        notification_code(appointment_notification_minutes),
    )
}

/// Makes the payloads of the EEPROM block.
pub fn build_eeprom_payloads(
    appointments: &Vec<Appointment>,
    anniversaries: &Vec<Anniversary>,
    phone_numbers: &Vec<PhoneNumber>,
    lists: &Vec<List>,
    appointment_notification_minutes: Option<u8>,
) -> (packets: Vec<Vec<u8>>)
    requires
        all_fit(appointments@),
        all_fit(lists@),
    ensures
        packets.deep_view() == eeprom_payloads(
            appointments@,
            anniversaries@,
            phone_numbers@,
            lists@,
            appointment_notification_minutes,
        ),
{
    let appointment_packets = make_records(appointments);
    let list_packets = make_records(lists);
    let phone_packets = make_records(phone_numbers);
    let anniversary_packets = make_records(anniversaries);
    let notification: u8 = match appointment_notification_minutes {
        Some(minutes) => minutes / 5,
        None => APPOINTMENT_NO_NOTIFICATION,
    };
    assemble_payloads(
        &appointment_packets,
        &list_packets,
        &phone_packets,
        &anniversary_packets,
        earliest_year(appointments),
        notification,
    )
}

/// The payloads of a sound theme with the bytes of its file; none for a
/// theme whose file has not been read.
pub open spec fn sound_theme_command_payloads(data: Option<SoundThemeData>) -> Seq<Seq<u8>> {
    match data {
        Some(file) => theme_payloads(theme_sound_data(file.data@)),
        None => Seq::empty(),
    }
}

/// The code of a wrist app with the bytes of its container file.
pub open spec fn wrist_app_code(file: WristAppData) -> Result<Seq<u8>, ZapError> {
    code_of_container(file.data@, WRIST_APP_CODE_INDEX as nat)
}

/// The payloads of a wrist app with the bytes of its container file; none
/// for an app whose file has not been read.
pub open spec fn wrist_app_command_payloads(data: Option<WristAppData>) -> Seq<Seq<u8>> {
    match data {
        Some(file) => match wrist_app_code(file) {
            Ok(code) => app_payloads(code),
            Err(_) => Seq::empty(),
        },
        None => Seq::empty(),
    }
}

/// A command of protocol 4.
#[derive(Debug, Clone)]
pub enum Protocol4 {
    /// The synchronization run.
    Sync { length: usize },
    /// Opens a transmission.
    Start,
    /// Sets the clock of time zone 1 or 2.
    Time { zone: u8, name: String, time: DateTime, is_24h: bool, date_format: DateFormat },
    /// Sets alarm 1 to 5.
    Alarm { number: u8, audible: bool, time: TimeOfDay, message: String },
    /// Fills the EEPROM.
    Eeprom {
        appointments: Vec<Appointment>,
        anniversaries: Vec<Anniversary>,
        phone_numbers: Vec<PhoneNumber>,
        lists: Vec<List>,
        appointment_notification_minutes: Option<u8>,
    },
    /// Loads a sound theme.
    SoundTheme { spc_file: String, sound_theme_data: Option<SoundThemeData> },
    /// Switches the hourly chime and the button beep.
    SoundOptions { hourly_chime: bool, button_beep: bool },
    /// Loads a wrist app.
    WristApp { zap_file: String, wrist_app_data: Option<WristAppData> },
    /// Closes a transmission.
    End,
}

/// The length of the first sync run where none is given.
pub fn default_sync_length() -> (length: usize)
    ensures
        length == 300,
{
    300
}

/// The payload of the time command: the command byte, the zone, the time
/// and date fields, the three codes of the zone's name, the weekday counted
/// from Monday, the clock and the date format.
pub open spec fn time_packet(
    zone: u8,
    name: Seq<char>,
    time: DateTime,
    is_24h: bool,
    date_format: DateFormat,
) -> Seq<u8> {
    seq![
        CPACKET_TIME,
        zone,
        time.second,
        time.hour,
        time.minute,
        time.month,
        time.day,
        year_in_century(time.year as int),
    ] + encoded(lowercase(name), CHARS@, 3, true) + seq![
        weekday_from_monday(time.year as int, time.month as int, time.day as int) as u8,
        clock_code(is_24h),
        date_format_code(date_format),
    ]
}

/// The payload of the alarm command.
pub open spec fn alarm_packet(number: u8, audible: bool, time: TimeOfDay, message: Seq<char>) -> Seq<
    u8,
> {
    alarm_payload(
        number,
        time.hour,
        time.minute,
        encoded(lowercase(message), CHARS@, 8, true),
        audible,
    )
}

impl Protocol4 {
    /// The command that opens a transmission.
    pub fn start() -> (command: Self)
        ensures
            command == Protocol4::Start,
    {
        Self::Start
    }

    /// The synchronization run of 300 bytes.
    pub fn sync() -> (command: Self)
        ensures
            command == (Protocol4::Sync { length: 300 }),
    {
        Self::Sync { length: default_sync_length() }
    }

    /// A synchronization run of `length` bytes.
    pub fn sync_with_length(length: usize) -> (command: Self)
        ensures
            command == (Protocol4::Sync { length }),
    {
        Self::Sync { length }
    }

    /// The command that closes a transmission.
    pub fn end() -> (command: Self)
        ensures
            command == Protocol4::End,
    {
        Self::End
    }

    /// A clock setting with a 12 hour clock and the date written month,
    /// day, year.
    pub fn time(zone: u8, name: &str, time: DateTime) -> (command: Self)
        ensures
            command matches Protocol4::Time { zone: z, name: n, time: t, is_24h, date_format }
                && z == zone && n@ == name@ && t == time && !is_24h && date_format
                == DateFormat::MonthDayYear,
    {
        Self::Time {
            zone,
            name: String::from_str(name),
            time,
            is_24h: false,
            date_format: DateFormat::default(),
        }
    }

    /// An alarm that sounds.
    pub fn alarm(number: u8, time: TimeOfDay, message: &str) -> (command: Self)
        ensures
            command matches Protocol4::Alarm { number: n, audible, time: t, message: m } && n
                == number && audible && t == time && m@ == message@,
    {
        Self::Alarm { number, audible: true, time, message: String::from_str(message) }
    }

    /// An EEPROM block without records.
    pub fn eeprom() -> (command: Self)
        ensures
            command matches Protocol4::Eeprom {
                appointments,
                anniversaries,
                phone_numbers,
                lists,
                appointment_notification_minutes,
            } && appointments@.len() == 0 && anniversaries@.len() == 0 && phone_numbers@.len() == 0
                && lists@.len() == 0 && appointment_notification_minutes is None,
    {
        Self::Eeprom {
            appointments: Vec::new(),
            anniversaries: Vec::new(),
            phone_numbers: Vec::new(),
            lists: Vec::new(),
            appointment_notification_minutes: None,
        }
    }

    /// Adds an anniversary to an EEPROM block, behind those that it has.
    pub fn add_anniversary(&mut self, anniversary: Anniversary) -> (this: &mut Self)
        requires
            *old(self) is Eeprom,
        ensures
            *this is Eeprom,
            (*this)->anniversaries@ == (*old(self))->anniversaries@.push(anniversary),
            (*this)->appointments == (*old(self))->appointments,
            (*this)->phone_numbers == (*old(self))->phone_numbers,
            (*this)->lists == (*old(self))->lists,
            (*this)->appointment_notification_minutes == (*old(
                self,
            ))->appointment_notification_minutes,
            *final(self) == *final(this),
    {
        match self {
            Self::Eeprom { anniversaries, .. } => {
                anniversaries.push(anniversary);
            },
            _ => {},
        }
        self
    }

    /// A sound theme known by the name of its file alone.
    pub fn sound_theme(spc_file: &str) -> (command: Self)
        ensures
            command matches Protocol4::SoundTheme { spc_file: f, sound_theme_data } && f@
                == spc_file@ && sound_theme_data is None,
    {
        Self::SoundTheme { spc_file: String::from_str(spc_file), sound_theme_data: None }
    }

    /// A sound theme with the bytes of its file.
    pub fn sound_theme_with_data(spc_file: &str, data: SoundThemeData) -> (command: Self)
        ensures
            command matches Protocol4::SoundTheme { spc_file: f, sound_theme_data } && f@
                == spc_file@ && sound_theme_data == Some(data),
    {
        Self::SoundTheme { spc_file: String::from_str(spc_file), sound_theme_data: Some(data) }
    }

    /// The sound options of a new watch: no hourly chime, button beep.
    pub fn sound_options() -> (command: Self)
        ensures
            command == (Protocol4::SoundOptions { hourly_chime: false, button_beep: true }),
    {
        Self::SoundOptions { hourly_chime: false, button_beep: true }
    }

    /// A wrist app known by the name of its file alone.
    pub fn wrist_app(zap_file: &str) -> (command: Self)
        ensures
            command matches Protocol4::WristApp { zap_file: f, wrist_app_data } && f@ == zap_file@
                && wrist_app_data is None,
    {
        Self::WristApp { zap_file: String::from_str(zap_file), wrist_app_data: None }
    }

    /// A wrist app with the bytes of its file.
    pub fn wrist_app_with_data(zap_file: &str, data: WristAppData) -> (command: Self)
        ensures
            command matches Protocol4::WristApp { zap_file: f, wrist_app_data } && f@ == zap_file@
                && wrist_app_data == Some(data),
    {
        Self::WristApp { zap_file: String::from_str(zap_file), wrist_app_data: Some(data) }
    }

    /// Whether the command sets the clock.
    pub fn is_time(&self) -> (yes: bool)
        ensures
            yes == (self is Time),
    {
        matches!(self, Self::Time { .. })
    }

    /// Whether the command sets an alarm.
    pub fn is_alarm(&self) -> (yes: bool)
        ensures
            yes == (self is Alarm),
    {
        matches!(self, Self::Alarm { .. })
    }

    /// Whether the command fills the EEPROM.
    pub fn is_eeprom(&self) -> (yes: bool)
        ensures
            yes == (self is Eeprom),
    {
        matches!(self, Self::Eeprom { .. })
    }

    /// Whether the command loads a sound theme.
    pub fn is_sound_theme(&self) -> (yes: bool)
        ensures
            yes == (self is SoundTheme),
    {
        matches!(self, Self::SoundTheme { .. })
    }

    /// Whether the command switches sounds.
    pub fn is_sound_options(&self) -> (yes: bool)
        ensures
            yes == (self is SoundOptions),
    {
        matches!(self, Self::SoundOptions { .. })
    }

    /// Whether the command loads a wrist app.
    pub fn is_wrist_app(&self) -> (yes: bool)
        ensures
            yes == (self is WristApp),
    {
        matches!(self, Self::WristApp { .. })
    }

    /// The days from Monday to the weekday of `date`.
    fn calculate_wday(&self, date: &DateTime) -> (weekday: u8)
        ensures
            weekday == weekday_from_monday(date.year as int, date.month as int, date.day as int),
    {
        days_from_monday(date.year, date.month, date.day)
    }

    /// Whether the command can be sent.
    pub fn is_sendable(&self) -> (ok: bool)
        ensures
            ok == self.sendable(),
    {
        match self {
            Self::Time { zone, .. } => *zone == 1 || *zone == 2,
            Self::Alarm { number, .. } => 1 <= *number && *number <= 5,
            Self::Eeprom { appointments, lists, .. } => check_records(appointments)
                && check_records(lists),
            Self::SoundTheme { sound_theme_data, .. } => match sound_theme_data {
                Some(file) => sound_data_of(file.data.as_slice()).len() <= 0x100,
                None => true,
            },
            Self::WristApp { wrist_app_data, .. } => match wrist_app_data {
                Some(file) => crate::protocol_4::WristApp::parse_zap_file(
                    file.data.as_slice(),
                ).is_ok(),
                None => true,
            },
            _ => true,
        }
    }
}

/// The payload of the time command, for a name that is encoded and a
/// weekday that is known.
pub fn build_time_packet(
    zone: u8,
    name_chars: &[u8],
    time: &DateTime,
    wday: u8,
    is_24h: bool,
    date_format: &DateFormat,
) -> (packet: Vec<u8>)
    ensures
        packet@ == seq![
            CPACKET_TIME,
            zone,
            time.second,
            time.hour,
            time.minute,
            time.month,
            time.day,
            year_in_century(time.year as int),
        ] + name_chars@ + seq![wday, clock_code(is_24h), date_format_code(*date_format)],
{
    let mut packet: Vec<u8> = Vec::new();
    packet.push(CPACKET_TIME);
    packet.push(zone);
    packet.push(time.second);
    packet.push(time.hour);
    packet.push(time.minute);
    packet.push(time.month);
    packet.push(time.day);
    packet.push((time.year % 100) as u8);
    packet.extend_from_slice(name_chars);
    packet.push(wday);
    packet.push(if is_24h { 2 } else { 1 });
    packet.push(date_format.to_code());
    assert(packet@ =~= seq![
        CPACKET_TIME,
        zone,
        time.second,
        time.hour,
        time.minute,
        time.month,
        time.day,
        year_in_century(time.year as int),
    ] + name_chars@ + seq![wday, clock_code(is_24h), date_format_code(*date_format)]);
    packet
}

impl PacketGenerator for Protocol4 {
    open spec fn sendable(&self) -> bool {
        match *self {
            Protocol4::Time { zone, .. } => zone == 1 || zone == 2,
            Protocol4::Alarm { number, .. } => 1 <= number <= 5,
            Protocol4::Eeprom { appointments, lists, .. } => all_fit(appointments@) && all_fit(
                lists@,
            ),
            Protocol4::SoundTheme { sound_theme_data, .. } => match sound_theme_data {
                Some(file) => theme_sound_data(file.data@).len() <= 0x100,
                None => true,
            },
            Protocol4::WristApp { wrist_app_data, .. } => match wrist_app_data {
                Some(file) => wrist_app_code(file) is Ok,
                None => true,
            },
            _ => true,
        }
    }

    open spec fn packets_view(&self) -> Seq<Seq<u8>> {
        match *self {
            Protocol4::Start => seq![seq![CPACKET_START, 0x00u8, 0x00u8, 0x04u8]],
            Protocol4::Sync { length } => seq![sync_packet(length as nat)],
            Protocol4::Time { zone, name, time, is_24h, date_format } => seq![
                time_packet(zone, name@, time, is_24h, date_format),
            ],
            Protocol4::Alarm { number, audible, time, message } => seq![
                alarm_packet(number, audible, time, message@),
            ],
            Protocol4::End => seq![seq![CPACKET_END]],
            Protocol4::Eeprom {
                appointments,
                anniversaries,
                phone_numbers,
                lists,
                appointment_notification_minutes,
            } => eeprom_payloads(
                appointments@,
                anniversaries@,
                phone_numbers@,
                lists@,
                appointment_notification_minutes,
            ),
            Protocol4::SoundTheme { sound_theme_data, .. } => sound_theme_command_payloads(
                sound_theme_data,
            ),
            Protocol4::SoundOptions { hourly_chime, button_beep } => seq![
                sound_options_payload(hourly_chime, button_beep),
            ],
            Protocol4::WristApp { wrist_app_data, .. } => wrist_app_command_payloads(
                wrist_app_data,
            ),
        }
    }

    fn packets(&self) -> (packets: Vec<Vec<u8>>) {
        match self {
            Self::Start => {
                let mut packet: Vec<u8> = Vec::new();
                packet.push(CPACKET_START);
                packet.push(0x00);
                packet.push(0x00);
                packet.push(0x04);
                assert(packet@ =~= seq![CPACKET_START, 0x00u8, 0x00u8, 0x04u8]);
                one_packet(packet)
            },
            Self::Sync { length } => {
                let mut packet: Vec<u8> = Vec::new();
                packet.push(PING_BYTE);
                push_run(&mut packet, SYNC_1_BYTE, *length);
                push_run(&mut packet, SYNC_2_BYTE, SYNC_2_LENGTH);
                assert(packet@ =~= sync_packet(*length as nat));
                one_packet(packet)
            },
            Self::Time { zone, name, time, is_24h, date_format } => {
                let name_chars = chars_for(name.as_str(), 3, true);
                let wday = self.calculate_wday(time);
                let packet = build_time_packet(
                    *zone,
                    name_chars.as_slice(),
                    time,
                    wday,
                    *is_24h,
                    date_format,
                );
                one_packet(packet)
            },
            Self::Alarm { number, audible, time, message } => {
                let message_chars = chars_for(message.as_str(), 8, true);
                let packet = build_alarm_payload(
                    *number,
                    time.hour,
                    time.minute,
                    message_chars.as_slice(),
                    *audible,
                );
                one_packet(packet)
            },
            Self::End => {
                let mut packet: Vec<u8> = Vec::new();
                packet.push(CPACKET_END);
                assert(packet@ =~= seq![CPACKET_END]);
                one_packet(packet)
            },
            Self::Eeprom {
                appointments,
                anniversaries,
                phone_numbers,
                lists,
                appointment_notification_minutes,
            } => build_eeprom_payloads(
                appointments,
                anniversaries,
                phone_numbers,
                lists,
                *appointment_notification_minutes,
            ),
            Self::SoundTheme { sound_theme_data, .. } => match sound_theme_data {
                Some(file) => sound_theme_payloads(sound_data_of(file.data.as_slice())),
                None => no_packets(),
            },
            Self::SoundOptions { hourly_chime, button_beep } => {
                let mut packet: Vec<u8> = Vec::new();
                packet.push(0x71);
                packet.push(if *hourly_chime { 1 } else { 0 });
                packet.push(if *button_beep { 1 } else { 0 });
                assert(packet@ =~= sound_options_payload(*hourly_chime, *button_beep));
                one_packet(packet)
            },
            Self::WristApp { wrist_app_data, .. } => match wrist_app_data {
                Some(file) => match crate::protocol_4::WristApp::parse_zap_file(
                    file.data.as_slice(),
                ) {
                    Ok(code) => wrist_app_payloads(code.as_slice()),
                    Err(_) => no_packets(),
                },
                None => no_packets(),
            },
        }
    }
}

/// An empty list of packets.
fn no_packets() -> (packets: Vec<Vec<u8>>)
    ensures
        packets.deep_view() == Seq::<Seq<u8>>::empty(),
{
    let packets: Vec<Vec<u8>> = Vec::new();
    assert(packets.deep_view() =~= Seq::<Seq<u8>>::empty());
    packets
}

} // verus!
