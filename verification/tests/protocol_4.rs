use timex_datalink::char_encoders::{CharString, EepromString, PhoneString};
use timex_datalink::protocol_4::eeprom::list::Priority;
use timex_datalink::protocol_4::eeprom::phone_number::PhoneType;
use timex_datalink::protocol_4::eeprom::{
    Anniversary, Appointment, Eeprom, List, NotificationMinutes, PhoneNumber,
};
use timex_datalink::protocol_4::time::DateFormat;
use timex_datalink::protocol_4::{
    Alarm, End, SoundOptions, SoundTheme, Start, Sync, Time, WristApp,
};
use timex_datalink::{PacketGenerator, Protocol4};

fn unix_seconds(year: i32, month: u32, day: u32, hour: u32, min: u32, sec: u32) -> i64 {
    chrono::NaiveDate::from_ymd_opt(year, month, day)
        .unwrap()
        .and_hms_opt(hour, min, sec)
        .unwrap()
        .and_utc()
        .timestamp()
}

fn hex_text(data: &[u8]) -> Vec<u8> {
    let digits = b"0123456789ABCDEF";
    let mut text = Vec::new();
    for byte in data {
        text.push(digits[(byte >> 4) as usize]);
        text.push(digits[(byte & 15) as usize]);
    }
    text
}

// A container of 19 sections: section 8 holds the protocol 3 code,
// section 18 the protocol 4 code.
fn example_zap() -> Vec<u8> {
    let mut zap = Vec::new();
    for i in 0..19 {
        if i == 8 {
            zap.extend(hex_text(b"150 data: Lorem ipsum dolor sit amet, consectetur adipiscing elit, sed do eiusmod tempor incididunt ut labore et dolore magna aliqua."));
        } else if i == 18 {
            zap.extend(hex_text(b"150s data: Lorem ipsum dolor sit amet, consectetur adipiscing elit, sed do eiusmod tempor incididunt ut labore et dolore magna aliqua."));
        } else {
            zap.extend(format!("Section {}", i).as_bytes());
        }
        zap.push(0xAC);
        zap.extend(format!(" end of section {}\r\n", i).as_bytes());
    }
    zap
}

fn example_spc() -> Vec<u8> {
    let mut spc = vec![0x25, 0x04, 0x19, 0x69];
    spc.extend(b"binary sound data that gets sent verbatim");
    spc
}

#[test]
fn alarm_test_alarm_basic() {
    let alarm = Alarm {
        number: 1,
        audible: true,
        time: unix_seconds(2000, 1, 1, 9, 0, 0),
        message: CharString::new("Wake up", false),
    };

    let expected = vec![vec![18, 80, 1, 9, 0, 0, 0, 32, 10, 20, 14, 36, 30, 25, 36, 1, 240, 32]];

    assert_eq!(alarm.packets(), expected);

    let alarm = timex_datalink::protocol_3::Alarm {
        number: 1,
        audible: true,
        hour: 9,
        minute: 0,
        message: CharString::new("Wake up", true),
    };

    assert_eq!(alarm.packets(), expected);
}

#[test]
fn alarm_test_alarm_silent() {
    let alarm = Alarm {
        number: 3,
        audible: false,
        time: unix_seconds(2000, 1, 1, 9, 10, 0),
        message: CharString::new("Get up", false),
    };

    let expected = vec![vec![18, 80, 3, 9, 10, 0, 0, 16, 14, 29, 36, 30, 25, 36, 36, 0, 169, 191]];

    assert_eq!(alarm.packets(), expected);

    let alarm = timex_datalink::protocol_3::Alarm {
        number: 3,
        audible: false,
        hour: 9,
        minute: 10,
        message: CharString::new("Get up", true),
    };

    assert_eq!(alarm.packets(), expected);
}

#[test]
fn test_eeprom_anniversary() {
    let eeprom = Eeprom {
        anniversaries: vec![Anniversary {
            time: unix_seconds(1985, 7, 3, 0, 0, 0),
            anniversary: EepromString::new("Release of Back to the Future"),
        }],
        appointments: vec![],
        phone_numbers: vec![],
        lists: vec![],
        appointment_notification_minutes: None,
    };

    let expected = vec![
        vec![5, 147, 1, 189, 49],
        vec![20, 144, 1, 1, 2, 54, 2, 54, 2, 54, 2, 54, 0, 0, 0, 1, 0, 255, 98, 195],
        vec![
            32, 145, 1, 1, 26, 7, 3, 155, 83, 57, 10, 231, 144, 216, 67, 46, 10, 67, 145, 29, 70,
            118, 145, 67, 62, 94, 231, 109, 206, 15, 224, 200,
        ],
        vec![5, 146, 1, 188, 161],
    ];

    assert_eq!(eeprom.packets(), expected);
}

#[test]
fn test_eeprom_appointment() {
    let eeprom = Eeprom {
        anniversaries: vec![],
        appointments: vec![Appointment {
            time: unix_seconds(2022, 10, 31, 19, 0, 0),
            message: EepromString::new("Scare the neighbors"),
        }],
        phone_numbers: vec![],
        lists: vec![],
        appointment_notification_minutes: None,
    };

    let expected = vec![
        vec![5, 147, 1, 189, 49],
        vec![20, 144, 1, 1, 2, 54, 2, 73, 2, 73, 2, 73, 1, 0, 0, 0, 22, 255, 12, 146],
        vec![
            25, 145, 1, 1, 19, 10, 31, 76, 28, 163, 108, 14, 217, 69, 14, 121, 57, 18, 20, 45, 216,
            198, 253, 244, 161,
        ],
        vec![5, 146, 1, 188, 161],
    ];

    assert_eq!(eeprom.packets(), expected);
}

#[test]
fn test_eeprom_list_item() {
    let eeprom = Eeprom {
        anniversaries: vec![],
        appointments: vec![],
        phone_numbers: vec![],
        lists: vec![List {
            list_entry: EepromString::new("Muffler bearings"),
            priority: Some(Priority::Two),
        }],
        appointment_notification_minutes: None,
    };

    let expected = vec![
        vec![5, 147, 1, 189, 49],
        vec![20, 144, 1, 1, 2, 54, 2, 54, 2, 69, 2, 69, 0, 1, 0, 0, 0, 255, 61, 54],
        vec![
            21, 145, 1, 1, 15, 2, 150, 247, 60, 149, 179, 145, 139, 163, 108, 210, 5, 113, 63, 23,
            68,
        ],
        vec![5, 146, 1, 188, 161],
    ];

    assert_eq!(eeprom.packets(), expected);
}

#[test]
fn test_eeprom_phone_number() {
    let eeprom = Eeprom {
        anniversaries: vec![],
        appointments: vec![],
        phone_numbers: vec![PhoneNumber {
            name: EepromString::new("Marty McFly"),
            number: PhoneString::new("1112223333"),
            phone_type: PhoneType::Home,
        }],
        lists: vec![],
        appointment_notification_minutes: None,
    };

    let expected = vec![
        vec![5, 147, 1, 189, 49],
        vec![20, 144, 1, 1, 2, 54, 2, 54, 2, 54, 2, 70, 0, 0, 1, 0, 0, 255, 67, 56],
        vec![
            22, 145, 1, 1, 16, 17, 33, 34, 51, 51, 207, 150, 178, 117, 34, 105, 49, 79, 37, 254,
            73, 203,
        ],
        vec![5, 146, 1, 188, 161],
    ];

    assert_eq!(eeprom.packets(), expected);
}

#[test]
fn end_test_end() {
    let end = End {};

    let expected = vec![vec![4, 33, 194, 216]];

    assert_eq!(end.packets(), expected);

    let end = timex_datalink::protocol_3::End;

    assert_eq!(end.packets(), expected);
}

#[test]
fn sound_options_test_sound_options() {
    let sound_options = SoundOptions { hourly_chime: true, button_beep: false };

    let expected = vec![vec![6, 113, 1, 0, 81, 3]];

    assert_eq!(sound_options.packets(), expected);

    let sound_options =
        timex_datalink::protocol_3::SoundOptions { hourly_chime: true, button_beep: false };

    assert_eq!(sound_options.packets(), expected);
}

#[test]
fn sound_theme_test_sound_theme() {
    let sound_theme = SoundTheme { sound_theme_data: example_spc() };

    let expected = vec![
        vec![7, 144, 3, 2, 215, 41, 254],
        vec![
            38, 145, 3, 1, 98, 105, 110, 97, 114, 121, 32, 115, 111, 117, 110, 100, 32, 100, 97,
            116, 97, 32, 116, 104, 97, 116, 32, 103, 101, 116, 115, 32, 115, 101, 110, 116, 235,
            28,
        ],
        vec![15, 145, 3, 2, 32, 118, 101, 114, 98, 97, 116, 105, 109, 236, 75],
        vec![5, 146, 3, 61, 96],
    ];

    assert_eq!(sound_theme.packets(), expected);

    // the same sound data without the mark of a theme file
    let sound_theme =
        timex_datalink::protocol_3::SoundTheme::new(example_spc()[4..].to_vec());

    assert_eq!(sound_theme.packets(), expected);
}

#[test]
fn start_test_start() {
    let start = Start {};

    let expected = vec![vec![7, 32, 0, 0, 4, 191, 195]];

    assert_eq!(start.packets(), expected);

    let start = timex_datalink::protocol_3::Start;

    let expected = vec![vec![7, 32, 0, 0, 3, 254, 1]];

    assert_eq!(start.packets(), expected);
}

#[test]
fn test_sync() {
    let sync = Sync::default();

    let mut packet = vec![120u8];
    packet.extend(vec![85u8; 300]);
    packet.extend(vec![170u8; 40]);
    let expected = vec![packet];

    assert_eq!(sync.packets(), expected);
}

#[test]
fn test_time_12h() {
    let time = Time {
        zone: 1,
        is_24h: false,
        date_format: DateFormat::MonthDashDayDashYear,
        time: unix_seconds(2022, 9, 5, 3, 39, 44),
        name: CharString::new("PDT", true),
    };

    let expected = vec![vec![17, 50, 1, 44, 3, 39, 9, 5, 22, 25, 13, 29, 0, 1, 0, 59, 190]];

    assert_eq!(time.packets(), expected);
}

#[test]
fn test_time_24h() {
    let time = Time {
        zone: 2,
        is_24h: true,
        date_format: DateFormat::MonthDashDayDashYear,
        time: unix_seconds(2022, 9, 5, 11, 39, 44),
        name: CharString::new("GMT", true),
    };

    let expected = vec![vec![17, 50, 2, 44, 11, 39, 9, 5, 22, 16, 22, 29, 0, 2, 0, 112, 118]];

    assert_eq!(time.packets(), expected);
}

#[test]
fn wrist_app_test_wrist_app() {
    let processed_data = WristApp::parse_zap_file(&example_zap()).unwrap();

    let wrist_app = WristApp { wrist_app_data: processed_data };

    let expected = vec![
        vec![5, 147, 2, 253, 48],
        vec![7, 144, 2, 5, 1, 251, 144],
        vec![
            38, 145, 2, 1, 49, 53, 48, 115, 32, 100, 97, 116, 97, 58, 32, 76, 111, 114, 101, 109,
            32, 105, 112, 115, 117, 109, 32, 100, 111, 108, 111, 114, 32, 115, 105, 116, 52, 28,
        ],
        vec![
            38, 145, 2, 2, 32, 97, 109, 101, 116, 44, 32, 99, 111, 110, 115, 101, 99, 116, 101,
            116, 117, 114, 32, 97, 100, 105, 112, 105, 115, 99, 105, 110, 103, 32, 101, 108, 169,
            240,
        ],
        vec![
            38, 145, 2, 3, 105, 116, 44, 32, 115, 101, 100, 32, 100, 111, 32, 101, 105, 117, 115,
            109, 111, 100, 32, 116, 101, 109, 112, 111, 114, 32, 105, 110, 99, 105, 100, 105, 82,
            19,
        ],
        vec![
            38, 145, 2, 4, 100, 117, 110, 116, 32, 117, 116, 32, 108, 97, 98, 111, 114, 101, 32,
            101, 116, 32, 100, 111, 108, 111, 114, 101, 32, 109, 97, 103, 110, 97, 32, 97, 63, 208,
        ],
        vec![12, 145, 2, 5, 108, 105, 113, 117, 97, 46, 67, 127],
        vec![5, 146, 2, 252, 160],
    ];

    assert_eq!(wrist_app.packets(), expected);

    let processed_data =
        timex_datalink::protocol_3::WristApp::parse_zap_file(&example_zap()).unwrap();

    let wrist_app = timex_datalink::protocol_3::WristApp::new(processed_data);

    let expected = vec![
        vec![5, 147, 2, 253, 48],
        vec![7, 144, 2, 5, 1, 251, 144],
        vec![
            38, 145, 2, 1, 49, 53, 48, 32, 100, 97, 116, 97, 58, 32, 76, 111, 114, 101, 109, 32,
            105, 112, 115, 117, 109, 32, 100, 111, 108, 111, 114, 32, 115, 105, 116, 32, 127, 211,
        ],
        vec![
            38, 145, 2, 2, 97, 109, 101, 116, 44, 32, 99, 111, 110, 115, 101, 99, 116, 101, 116,
            117, 114, 32, 97, 100, 105, 112, 105, 115, 99, 105, 110, 103, 32, 101, 108, 105, 42,
            63,
        ],
        vec![
            38, 145, 2, 3, 116, 44, 32, 115, 101, 100, 32, 100, 111, 32, 101, 105, 117, 115, 109,
            111, 100, 32, 116, 101, 109, 112, 111, 114, 32, 105, 110, 99, 105, 100, 105, 100, 40,
            140,
        ],
        vec![
            38, 145, 2, 4, 117, 110, 116, 32, 117, 116, 32, 108, 97, 98, 111, 114, 101, 32, 101,
            116, 32, 100, 111, 108, 111, 114, 101, 32, 109, 97, 103, 110, 97, 32, 97, 108, 146,
            167,
        ],
        vec![11, 145, 2, 5, 105, 113, 117, 97, 46, 103, 102],
        vec![5, 146, 2, 252, 160],
    ];

    assert_eq!(wrist_app.packets(), expected);
}

#[test]
fn time_of_a_saturday_has_weekday_five() {
    let time = Time {
        zone: 1,
        is_24h: true,
        date_format: DateFormat::YearDotMonthDotDay,
        time: unix_seconds(2022, 10, 15, 13, 20, 30),
        name: CharString::new("TZ1", true),
    };
    assert!(time.is_sendable());
    let packets = time.packets();
    assert_eq!(packets.len(), 1);
    // header, command, zone, second, hour, minute, month, day, year
    assert_eq!(&packets[0][..9], &[17, 0x32, 1, 30, 13, 20, 10, 15, 22]);
    assert_eq!(packets[0][12], 5);
    assert_eq!(packets[0][13], 2);
    assert_eq!(packets[0][14], 6);
}

#[test]
fn date_formats_have_no_code_three() {
    assert_eq!(DateFormat::MonthDashDayDashYear.code(), 0);
    assert_eq!(DateFormat::DayDashMonthDashYear.code(), 1);
    assert_eq!(DateFormat::YearDashMonthDashDay.code(), 2);
    assert_eq!(DateFormat::MonthDotDayDotYear.code(), 4);
    assert_eq!(DateFormat::DayDotMonthDotYear.code(), 5);
    assert_eq!(DateFormat::YearDotMonthDotDay.code(), 6);
}

#[test]
fn invalid_zone_and_alarm_number_are_not_sendable() {
    let time = Time {
        zone: 3,
        is_24h: true,
        date_format: DateFormat::MonthDashDayDashYear,
        time: 0,
        name: CharString::new("TZ3", true),
    };
    assert!(!time.is_sendable());
    let before_epoch = Time { zone: 1, time: -1, ..time };
    assert!(!before_epoch.is_sendable());
    let alarm =
        Alarm { number: 6, audible: true, time: 0, message: CharString::new("TEST", true) };
    assert!(!alarm.is_sendable());
    let alarm = Alarm { number: 0, ..alarm };
    assert!(!alarm.is_sendable());
    let alarm = Alarm { number: 5, ..alarm };
    assert!(alarm.is_sendable());
}

#[test]
fn empty_eeprom_has_one_data_packet() {
    let eeprom = Eeprom {
        anniversaries: vec![],
        appointments: vec![],
        phone_numbers: vec![],
        lists: vec![],
        appointment_notification_minutes: Some(NotificationMinutes::FifteenMinutes),
    };
    assert!(eeprom.is_sendable());
    let packets = eeprom.packets();
    // clear, header, one data packet without bytes, end
    assert_eq!(packets.len(), 4);
    assert_eq!(&packets[0][..3], &[5, 0x93, 0x01]);
    // one page, four times the start address, no records, year 0, code 3
    assert_eq!(
        &packets[1][..18],
        &[20, 0x90, 0x01, 1, 2, 54, 2, 54, 2, 54, 2, 54, 0, 0, 0, 0, 0, 3]
    );
    assert_eq!(&packets[2][..4], &[6, 0x91, 0x01, 1]);
    assert_eq!(packets[2].len(), 6);
    assert_eq!(&packets[3][..3], &[5, 0x92, 0x01]);
}

#[test]
fn eeprom_with_every_kind_of_record() {
    let eeprom = Eeprom {
        appointments: vec![
            Appointment {
                time: unix_seconds(2022, 10, 31, 19, 0, 0),
                message: EepromString::new("Scare the neighbors"),
            },
            Appointment {
                time: unix_seconds(1999, 12, 31, 23, 59, 0),
                message: EepromString::new("Party"),
            },
        ],
        anniversaries: vec![Anniversary {
            time: unix_seconds(1955, 11, 5, 0, 0, 0),
            anniversary: EepromString::new("Flux capacitor"),
        }],
        phone_numbers: vec![PhoneNumber {
            name: EepromString::new("Marty McFly"),
            number: PhoneString::new("1112223333"),
            phone_type: PhoneType::Home,
        }],
        lists: vec![List { list_entry: EepromString::new("Muffler bearings"), priority: None }],
        appointment_notification_minutes: Some(NotificationMinutes::ThirtyMinutes),
    };
    let a: Vec<Vec<u8>> = eeprom.appointments.iter().map(|r| r.packet()).collect();
    let l = eeprom.lists[0].packet();
    let p = eeprom.phone_numbers[0].packet();
    let n = eeprom.anniversaries[0].packet();
    // the anniversary lies before 1970
    assert_eq!(&n[..3], &[n.len() as u8, 11, 5]);
    // 23:59 is the quarter hour 95
    assert_eq!(&a[1][..4], &[a[1].len() as u8, 12, 31, 95]);
    assert_eq!(l[1], 0);
    let mut data: Vec<u8> = Vec::new();
    data.extend(&a[0]);
    data.extend(&a[1]);
    data.extend(&l);
    data.extend(&p);
    data.extend(&n);
    let pages = (data.len() + 31) / 32;
    let packets = eeprom.packets();
    assert_eq!(packets.len(), 3 + pages);
    let header = &packets[1];
    assert_eq!(header[3] as usize, pages);
    let second = 0x0236 + a[0].len() + a[1].len();
    let third = second + l.len();
    let fourth = third + p.len();
    assert_eq!(
        &header[4..12],
        &[
            0x02,
            0x36,
            (second >> 8) as u8,
            second as u8,
            (third >> 8) as u8,
            third as u8,
            (fourth >> 8) as u8,
            fourth as u8
        ]
    );
    assert_eq!(&header[12..16], &[2, 1, 1, 1]);
    // the earliest appointment is of 1999
    assert_eq!(header[16], 99);
    assert_eq!(header[17], 6);
    // the pages carry the data, numbered from 1
    let mut sent: Vec<u8> = Vec::new();
    for (i, packet) in packets[2..2 + pages].iter().enumerate() {
        assert_eq!(&packet[1..4], &[0x91, 0x01, (i + 1) as u8]);
        assert_eq!(packet[0] as usize, packet.len());
        sent.extend(&packet[4..packet.len() - 2]);
    }
    assert_eq!(sent, data);
}

#[test]
fn phone_number_types_and_long_numbers() {
    let record = |number: &str, phone_type: PhoneType| {
        PhoneNumber {
            name: EepromString::new(""),
            number: PhoneString::new(number),
            phone_type,
        }
        .packet()
    };
    // "55 c" filled up with spaces: 5, 5, 15, 10, then eight times 15
    assert_eq!(record("55", PhoneType::Cell), vec![8, 0x55, 0xaf, 0xff, 0xff, 0xff, 0xff, 0x3f]);
    assert_eq!(record("55", PhoneType::Work)[2], 0xef);
    assert_eq!(record("55", PhoneType::Other)[2], 0xff);
    // a number with an odd count of digits stays as it is: "5 c"
    assert_eq!(record("5", PhoneType::Cell), vec![8, 0xf5, 0xfa, 0xff, 0xff, 0xff, 0xff, 0x3f]);
    assert_eq!(record("123", PhoneType::Home), vec![8, 0x21, 0xf3, 0xfc, 0xff, 0xff, 0xff, 0x3f]);
    // twelve digits leave no room for the kind of phone
    assert_eq!(
        record("123456789012", PhoneType::Home),
        vec![8, 0x21, 0x43, 0x65, 0x87, 0x09, 0x21, 0x3f]
    );
    // letters and spaces of the number are kept: "5h 1 w"
    assert_eq!(
        record("5H 1", PhoneType::Work),
        vec![8, 0xc5, 0x1f, 0xef, 0xff, 0xff, 0xff, 0x3f]
    );
    // no number at all: " h"
    assert_eq!(record("", PhoneType::Home), vec![8, 0xcf, 0xff, 0xff, 0xff, 0xff, 0xff, 0x3f]);
    let number = PhoneString::new("12c");
    assert_eq!(number.as_codes(), &[1, 2, 10]);
    assert_eq!(number.as_bytes(), &[0x21, 0x0a]);
}

#[test]
fn list_priorities() {
    let with = |priority| {
        List { list_entry: EepromString::new("a"), priority }.packet()[1]
    };
    assert_eq!(with(None), 0);
    assert_eq!(with(Some(Priority::One)), 1);
    assert_eq!(with(Some(Priority::Three)), 3);
    assert_eq!(with(Some(Priority::Four)), 4);
    assert_eq!(with(Some(Priority::Five)), 5);
}

#[test]
fn session_keeps_the_order_of_adding() {
    let mut session = Protocol4::new();
    assert_eq!(session.packets(), Vec::<Vec<u8>>::new());
    session.add(Sync { length: 2 });
    session.add(Start {});
    session.add(SoundOptions { hourly_chime: false, button_beep: true });
    session.add(End {});
    let packets = session.packets();
    let mut sync = vec![0x78, 0x55, 0x55];
    sync.extend(vec![0xaau8; 40]);
    assert_eq!(packets.len(), 4);
    assert_eq!(packets[0], sync);
    assert_eq!(packets[1], vec![7, 32, 0, 0, 4, 191, 195]);
    assert_eq!(&packets[2][..4], &[6, 0x71, 0, 1]);
    assert_eq!(packets[3], vec![4, 33, 194, 216]);
    // asking twice gives the same packets
    assert_eq!(session.packets(), packets);
    // a session is a command itself
    let mut outer = Protocol4::new();
    outer.add(session);
    assert_eq!(outer.packets(), packets);
}

#[test]
fn sound_theme_limits() {
    assert!(SoundTheme { sound_theme_data: vec![0; 256] }.is_sendable());
    assert!(!SoundTheme { sound_theme_data: vec![0; 257] }.is_sendable());
    // with the mark, four more bytes fit
    let mut marked = vec![0x25, 0x04, 0x19, 0x69];
    marked.extend(vec![0u8; 256]);
    let theme = SoundTheme { sound_theme_data: marked };
    assert!(theme.is_sendable());
    let packets = theme.packets();
    // eight pages, offset 0
    assert_eq!(packets.len(), 10);
    assert_eq!(&packets[0][..5], &[7, 0x90, 0x03, 8, 0]);
    // no sound data at all: no pages, offset 256 in one byte
    let packets = SoundTheme { sound_theme_data: vec![] }.packets();
    assert_eq!(packets.len(), 2);
    assert_eq!(&packets[0][..5], &[7, 0x90, 0x03, 0, 0]);
}
