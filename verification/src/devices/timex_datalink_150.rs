//! What a Timex Datalink 150 is loaded with, as it is written in a data
//! file: times are text, to be read by the caller.

use vstd::prelude::*;

verus! {

/// An appointment of a data file.
#[derive(Debug, Clone)]
pub struct AppointmentData {
    pub time: String,
    pub message: String,
}

/// An anniversary of a data file.
#[derive(Debug, Clone)]
pub struct AnniversaryData {
    pub time: String,
    pub anniversary: String,
}

/// A phone number of a data file.
#[derive(Debug, Clone)]
pub struct PhoneNumberData {
    pub name: String,
    pub number: String,
    /// The mark of the kind of phone, if the file gives one.
    pub type_code: Option<String>,
}

/// A list entry of a data file.
#[derive(Debug, Clone)]
pub struct ListData {
    pub list_entry: String,
    pub priority: Option<i32>,
}

/// An alarm of a data file.
#[derive(Debug, Clone)]
pub struct AlarmData {
    pub number: u8,
    pub audible: bool,
    pub hour: u8,
    pub minute: u8,
    pub message: String,
}

/// The sound options of a data file.
#[derive(Debug, Clone)]
pub struct SoundOptionsData {
    pub hourly_chime: bool,
    pub button_beep: bool,
}

/// Everything that a data file holds.
#[derive(Debug, Clone)]
pub struct TimexData {
    pub appointments: Vec<AppointmentData>,
    pub anniversaries: Vec<AnniversaryData>,
    pub phone_numbers: Vec<PhoneNumberData>,
    pub lists: Vec<ListData>,
    pub alarms: Vec<AlarmData>,
    pub sound_options: Option<SoundOptionsData>,
    pub appointment_notification_minutes: Option<u8>,
}

impl TimexData {
    /// Whether the data set holds nothing.
    pub open spec fn is_blank(&self) -> bool {
        &&& self.appointments@.len() == 0
        &&& self.anniversaries@.len() == 0
        &&& self.phone_numbers@.len() == 0
        &&& self.lists@.len() == 0
        &&& self.alarms@.len() == 0
        &&& self.sound_options is None
        &&& self.appointment_notification_minutes is None
    }

    /// A data set that holds nothing.
    pub fn new() -> (data: Self)
        ensures
            data.is_blank(),
    {
        TimexData {
            appointments: Vec::new(),
            anniversaries: Vec::new(),
            phone_numbers: Vec::new(),
            lists: Vec::new(),
            alarms: Vec::new(),
            sound_options: None,
            appointment_notification_minutes: None,
        }
    }
}

impl Default for TimexData {
    /// A data set that holds nothing.
    fn default() -> (data: Self)
        ensures
            data.is_blank(),
    {
        Self::new()
    }
}

} // verus!
