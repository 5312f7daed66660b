use timex_datalink::client::helpers::crc_packets_wrapper::crc_packets_wrapper;
use timex_datalink::client::helpers::length_packet_wrapper::length_packet_wrapper;
use timex_datalink::client::protocol4::{
    Anniversary, Appointment, DateFormat, DateTime, List, PacketGenerator, PhoneNumber, Protocol4,
    SoundThemeData, TimeOfDay, WristAppData,
};

fn wrap_with_crc(packets: Vec<Vec<u8>>) -> Vec<Vec<u8>> {
    crc_packets_wrapper(packets)
}

fn wrap_with_length(packet: Vec<u8>) -> Vec<u8> {
    length_packet_wrapper(&packet)
}

#[test]
fn test_alarm_packets() {
    let time = TimeOfDay { hour: 7, minute: 30 };

    let alarm =
        Protocol4::Alarm { number: 1, audible: true, time, message: "WAKE UP!".to_string() };

    let packets = alarm.packets();

    assert_eq!(packets.len(), 1);
    let packet = &packets[0];

    assert_eq!(packet[0], 0x50);
    assert_eq!(packet[1], 1);
    assert_eq!(packet[2], 7);
    assert_eq!(packet[3], 30);
    assert_eq!(packet[4], 0);
    assert_eq!(packet[5], 0);
    assert_eq!(packet[14], 1);

    let wrapped = wrap_with_crc(packets);

    assert_eq!(wrapped[0].len(), 18);
    assert_eq!(wrapped[0][0], 18);
}

#[test]
fn test_alarm_not_audible() {
    let time = TimeOfDay { hour: 9, minute: 15 };

    let alarm =
        Protocol4::Alarm { number: 2, audible: false, time, message: "MEETING".to_string() };

    let packets = alarm.packets();

    assert_eq!(packets.len(), 1);
    let packet = &packets[0];

    assert_eq!(packet[0], 0x50);
    assert_eq!(packet[1], 2);
    assert_eq!(packet[2], 9);
    assert_eq!(packet[3], 15);
    assert_eq!(packet[4], 0);
    assert_eq!(packet[5], 0);
    assert_eq!(packet[14], 0);
}

#[test]
fn test_alarm_long_message_truncation() {
    let alarm = Protocol4::Alarm {
        number: 3,
        audible: true,
        time: TimeOfDay { hour: 12, minute: 0 },
        message: "THIS MESSAGE IS TOO LONG".to_string(),
    };

    let packets = alarm.packets();

    assert_eq!(packets[0].len(), 15);

    assert_eq!(packets[0][14], 1);
}

#[test]
fn anniversary_test_anniversary_packet() {
    let time = DateTime { year: 1997, month: 9, day: 19, hour: 0, minute: 0, second: 0 };

    let anniversary = Anniversary::new(time, "TIMEXDL.EXE modified date".to_string());

    let expected = vec![
        0x09, 0x13, 0x9d, 0x64, 0x39, 0x61, 0x53, 0xc9, 0x4e, 0xe8, 0x90, 0x16, 0xd6, 0x48, 0x8f,
        0xe4, 0x34, 0x64, 0xa3, 0x74, 0xce, 0x0f,
    ];

    assert_eq!(anniversary.packet(), expected);

    let expected_with_length = length_packet_wrapper(&expected);
    assert_eq!(anniversary.packet_with_length(), expected_with_length);
}

#[test]
fn test_anniversary_packet_with_different_date() {
    let time = DateTime { year: 2015, month: 10, day: 21, hour: 0, minute: 0, second: 0 };

    let anniversary = Anniversary::new(time, "TIMEXDL.EXE modified date".to_string());

    let expected = vec![
        0x0a, 0x15, 0x9d, 0x64, 0x39, 0x61, 0x53, 0xc9, 0x4e, 0xe8, 0x90, 0x16, 0xd6, 0x48, 0x8f,
        0xe4, 0x34, 0x64, 0xa3, 0x74, 0xce, 0x0f,
    ];

    assert_eq!(anniversary.packet(), expected);
}

#[test]
fn test_anniversary_packet_with_long_message() {
    let time = DateTime { year: 1997, month: 9, day: 19, hour: 0, minute: 0, second: 0 };

    let anniversary =
        Anniversary::new(time, "To the Delorean with More Than 31 Characters".to_string());

    let expected = vec![
        0x09, 0x13, 0x1d, 0x46, 0x76, 0x91, 0x43, 0x36, 0x4e, 0x85, 0x6d, 0x8e, 0x72, 0x91, 0xa0,
        0xd4, 0x45, 0xa4, 0x85, 0x6d, 0x0e, 0xd9, 0x45, 0xca, 0x45, 0xfe,
    ];

    assert_eq!(anniversary.packet(), expected);
}

#[test]
fn test_anniversary_packet_with_special_chars() {
    let time = DateTime { year: 1997, month: 9, day: 19, hour: 0, minute: 0, second: 0 };

    let anniversary = Anniversary::new(time, ";@_|<>[]".to_string());

    let expected = vec![0x09, 0x13, 0x36, 0xae, 0xef, 0x7c, 0xef, 0x93, 0x3f];

    assert_eq!(anniversary.packet(), expected);
}

#[test]
fn test_anniversary_packet_with_invalid_chars() {
    let time = DateTime { year: 1997, month: 9, day: 19, hour: 0, minute: 0, second: 0 };

    let anniversary = Anniversary::new(time, "~with~invalid~characters".to_string());

    let expected = vec![
        0x09, 0x13, 0x24, 0x28, 0x75, 0x11, 0x29, 0x5d, 0x9f, 0x52, 0x49, 0x0d, 0xc9, 0x44, 0xca,
        0xa6, 0x30, 0x9d, 0xb3, 0x71, 0x3f,
    ];

    assert_eq!(anniversary.packet(), expected);
}

#[test]
fn appointment_test_appointment_packet() {
    let time = DateTime { year: 1997, month: 9, day: 19, hour: 0, minute: 0, second: 0 };

    let appointment = Appointment::new(time, "Release TIMEXDL.EXE".to_string());

    let expected_base_packet = vec![
        0x09, 0x13, 0x00, 0x9b, 0x53, 0x39, 0x0a, 0xe7, 0x90, 0x9d, 0x64, 0x39, 0x61, 0x53, 0xc9,
        0x4e, 0xe8, 0xfc,
    ];

    assert_eq!(appointment.packet(), expected_base_packet);

    let length_prefixed = wrap_with_length(expected_base_packet.clone());
    assert_eq!(appointment.packet_with_length(), length_prefixed);
}

#[test]
fn test_appointment_with_different_date() {
    let time = DateTime { year: 2015, month: 10, day: 21, hour: 0, minute: 0, second: 0 };

    let appointment = Appointment::new(time, "Release TIMEXDL.EXE".to_string());

    let expected_base_packet = vec![
        0x0a, 0x15, 0x00, 0x9b, 0x53, 0x39, 0x0a, 0xe7, 0x90, 0x9d, 0x64, 0x39, 0x61, 0x53, 0xc9,
        0x4e, 0xe8, 0xfc,
    ];

    assert_eq!(appointment.packet(), expected_base_packet);
}

#[test]
fn test_appointment_with_long_message() {
    let time = DateTime { year: 1997, month: 9, day: 19, hour: 0, minute: 0, second: 0 };

    let appointment =
        Appointment::new(time, "To the Delorean with More Than 31 Characters".to_string());

    let expected_base_packet = vec![
        0x09, 0x13, 0x00, 0x1d, 0x46, 0x76, 0x91, 0x43, 0x36, 0x4e, 0x85, 0x6d, 0x8e, 0x72, 0x91,
        0xa0, 0xd4, 0x45, 0xa4, 0x85, 0x6d, 0x0e, 0xd9, 0x45, 0xca, 0x45, 0xfe,
    ];

    assert_eq!(appointment.packet(), expected_base_packet);
}

#[test]
fn test_appointment_with_special_chars() {
    let time = DateTime { year: 1997, month: 9, day: 19, hour: 0, minute: 0, second: 0 };

    let appointment = Appointment::new(time, ";@_|<>[]".to_string());

    let expected_base_packet = vec![0x09, 0x13, 0x00, 0x36, 0xae, 0xef, 0x7c, 0xef, 0x93, 0x3f];

    assert_eq!(appointment.packet(), expected_base_packet);
}

#[test]
fn test_appointment_with_invalid_chars() {
    let time = DateTime { year: 1997, month: 9, day: 19, hour: 0, minute: 0, second: 0 };

    let appointment = Appointment::new(time, "~with~invalid~characters".to_string());

    let expected_base_packet = vec![
        0x09, 0x13, 0x00, 0x24, 0x28, 0x75, 0x11, 0x29, 0x5d, 0x9f, 0x52, 0x49, 0x0d, 0xc9, 0x44,
        0xca, 0xa6, 0x30, 0x9d, 0xb3, 0x71, 0x3f,
    ];

    assert_eq!(appointment.packet(), expected_base_packet);
}

#[test]
fn appointment_test_length_packet_wrapper() {
    let packet = vec![1, 2, 3];
    let wrapped = wrap_with_length(packet);
    assert_eq!(wrapped, vec![4, 1, 2, 3]);
}

#[test]
fn test_start_packets() {
    let start = Protocol4::Start;

    let packets = start.packets();

    let expected_packet = vec![0x20, 0x00, 0x00, 0x04];

    assert_eq!(packets, vec![expected_packet]);

    let wrapped = wrap_with_crc(packets);

    assert_eq!(wrapped[0].len(), 7);
    assert_eq!(wrapped[0][0], 7);
}

#[test]
fn test_sync_default_length() {
    let sync = Protocol4::sync();

    let packets = sync.packets();

    assert_eq!(packets.len(), 1);

    assert_eq!(packets[0][0], 0x78);

    for i in 1..301 {
        assert_eq!(packets[0][i], 0x55);
    }

    for i in 301..341 {
        assert_eq!(packets[0][i], 0xaa);
    }

    assert_eq!(packets[0].len(), 341);
}

#[test]
fn test_sync_custom_length() {
    let sync = Protocol4::sync_with_length(100);

    let packets = sync.packets();

    assert_eq!(packets.len(), 1);

    assert_eq!(packets[0][0], 0x78);

    for i in 1..101 {
        assert_eq!(packets[0][i], 0x55);
    }

    for i in 101..141 {
        assert_eq!(packets[0][i], 0xaa);
    }

    assert_eq!(packets[0].len(), 141);
}

#[test]
fn test_time_packets_zone_1() {
    let time = DateTime {
        year: 2022,
        month: 10,
        day: 15,
        hour: 13,
        minute: 20,
        second: 30,
        ..Default::default()
    };

    let time_obj = Protocol4::Time {
        zone: 1,
        name: "TZ1".to_string(),
        time,
        is_24h: true,
        date_format: DateFormat::MonthDayYear,
    };

    let packets = time_obj.packets();

    assert_eq!(packets.len(), 1);
    let packet = &packets[0];

    assert_eq!(packet[0], 0x32);
    assert_eq!(packet[1], 1);
    assert_eq!(packet[2], 30);
    assert_eq!(packet[3], 13);
    assert_eq!(packet[4], 20);
    assert_eq!(packet[5], 10);
    assert_eq!(packet[6], 15);
    assert_eq!(packet[7], 22);
    assert_eq!(packet[11], 5);
    assert_eq!(packet[12], 2);
    assert_eq!(packet[13], 0);

    let wrapped = wrap_with_crc(packets);

    assert_eq!(wrapped[0].len(), 17);
    assert_eq!(wrapped[0][0], 17);
}

#[test]
fn test_time_packets_zone_2() {
    let time = DateTime {
        year: 2022,
        month: 5,
        day: 20,
        hour: 8,
        minute: 45,
        second: 0,
        ..Default::default()
    };

    let time_obj = Protocol4::Time {
        zone: 2,
        name: "UTC".to_string(),
        time,
        is_24h: false,
        date_format: DateFormat::DayMonthYear,
    };

    let packets = time_obj.packets();

    assert_eq!(packets.len(), 1);
    let packet = &packets[0];

    assert_eq!(packet[0], 0x32);
    assert_eq!(packet[1], 2);
    assert_eq!(packet[2], 0);
    assert_eq!(packet[3], 8);
    assert_eq!(packet[4], 45);
    assert_eq!(packet[5], 5);
    assert_eq!(packet[6], 20);
    assert_eq!(packet[7], 22);
    assert_eq!(packet[11], 4);
    assert_eq!(packet[12], 1);
    assert_eq!(packet[13], 1);
}

#[test]
fn weekdays_agree_with_the_calendar() {
    let code = |year: u16, month: u8, day: u8| {
        Protocol4::Time {
            zone: 1,
            name: "".to_string(),
            time: DateTime::new(year, month, day, 0, 0, 0),
            is_24h: false,
            date_format: DateFormat::MonthDayYear,
        }
        .packets()[0][11]
    };
    // 1970-01-01 was a Thursday, 2000-01-01 a Saturday
    assert_eq!(code(1970, 1, 1), 3);
    assert_eq!(code(2000, 1, 1), 5);
    // round the leap day of 2024: Wednesday, Thursday, Friday
    assert_eq!(code(2024, 2, 28), 2);
    assert_eq!(code(2024, 2, 29), 3);
    assert_eq!(code(2024, 3, 1), 4);
    // 1900 had no leap day: 28 February a Wednesday, 1 March a Thursday
    assert_eq!(code(1900, 2, 28), 2);
    assert_eq!(code(1900, 3, 1), 3);
    // every day of some years against chrono
    for year in [0u16, 1, 1999, 2000, 2023, 2024, 9999] {
        let mut date = chrono::NaiveDate::from_ymd_opt(year as i32, 1, 1).unwrap();
        while chrono::Datelike::year(&date) == year as i32 {
            let month = chrono::Datelike::month(&date) as u8;
            let day = chrono::Datelike::day(&date) as u8;
            let expected = chrono::Datelike::weekday(&date).num_days_from_monday() as u8;
            assert_eq!(code(year, month, day), expected);
            date = date.succ_opt().unwrap();
        }
    }
}

#[test]
fn time_packet_bytes() {
    let time = Protocol4::time(2, "utc", DateTime::new(2022, 9, 5, 11, 39, 44));
    assert!(time.is_time() && !time.is_alarm());
    assert!(time.is_sendable());
    // a Monday; 12 hour clock and the first date format by default
    assert_eq!(
        time.packets(),
        vec![vec![0x32, 2, 44, 11, 39, 9, 5, 22, 30, 29, 12, 0, 1, 0]]
    );
    // framed with the low byte of the checksum first
    let framed = time.packets_with_crc();
    assert_eq!(framed, wrap_with_crc(time.packets()));
    assert_eq!(framed[0].len(), 17);
    assert_eq!(framed[0][0], 17);
    assert_eq!(&framed[0][1..15], &time.packets()[0][..]);
}

#[test]
fn commands_outside_their_ranges_are_not_sendable() {
    let time = Protocol4::time(3, "TZ3", DateTime::default());
    assert!(!time.is_sendable());
    assert!(!Protocol4::time(0, "TZ0", DateTime::default()).is_sendable());
    let alarm = Protocol4::alarm(6, TimeOfDay::default(), "TEST");
    assert!(alarm.is_alarm());
    assert!(!alarm.is_sendable());
    assert!(!Protocol4::alarm(0, TimeOfDay::new(1, 2), "TEST").is_sendable());
    assert!(Protocol4::alarm(5, TimeOfDay::new(1, 2), "TEST").is_sendable());
    // hour 64 has no quarter hour that fits a byte
    let mut eeprom = Protocol4::eeprom();
    assert!(eeprom.is_sendable());
    assert_eq!(eeprom.packets().len(), 4);
    if let Protocol4::Eeprom { appointments, .. } = &mut eeprom {
        appointments.push(Appointment::new(DateTime::new(2000, 1, 1, 64, 0, 0), String::new()));
    }
    assert!(!eeprom.is_sendable());
    assert!(!Appointment::new(DateTime::new(2000, 1, 1, 63, 60, 0), String::new()).is_storable());
    assert!(Appointment::new(DateTime::new(2000, 1, 1, 63, 59, 0), String::new()).is_storable());
}

#[test]
fn eeprom_command_sends_the_whole_block() {
    let mut eeprom = Protocol4::eeprom();
    assert!(eeprom.is_eeprom());
    // no records: the clearing packet, the header, one data packet
    // without bytes, the closing packet
    assert_eq!(
        eeprom.packets(),
        vec![
            vec![0x93, 0x01],
            vec![0x90, 0x01, 1, 2, 54, 2, 54, 2, 54, 2, 54, 0, 0, 0, 0, 0, 255],
            vec![0x91, 0x01, 1],
            vec![0x92, 0x01],
        ]
    );
    let first = Anniversary::new(DateTime::new(1985, 7, 3, 0, 0, 0), "a".to_string());
    let second = Anniversary::new(DateTime::new(1955, 11, 5, 0, 0, 0), "b".to_string());
    eeprom.add_anniversary(first.clone()).add_anniversary(second.clone());
    let appointment = Appointment::new(DateTime::new(2022, 10, 31, 19, 35, 0), "c".to_string());
    let early = Appointment::new(DateTime::new(1999, 1, 2, 0, 0, 0), "d".to_string());
    let phone = PhoneNumber {
        name: "Marty McFly".to_string(),
        number: "1112223333".to_string(),
        type_: "H".to_string(),
    };
    let list = List { list_entry: "Muffler bearings".to_string(), priority: 2 };
    if let Protocol4::Eeprom {
        appointments,
        phone_numbers,
        lists,
        appointment_notification_minutes,
        ..
    } = &mut eeprom
    {
        appointments.push(appointment.clone());
        appointments.push(early.clone());
        phone_numbers.push(phone.clone());
        lists.push(list.clone());
        *appointment_notification_minutes = Some(10);
    }
    assert!(eeprom.is_sendable());
    // 19:35 is the quarter hour 78
    assert_eq!(&appointment.packet()[..3], &[10, 31, 78]);
    assert_eq!(
        phone.packet_with_length(),
        vec![16, 17, 33, 34, 51, 51, 207, 150, 178, 117, 34, 105, 49, 79, 37, 254]
    );
    assert_eq!(
        list.packet_with_length(),
        vec![15, 2, 150, 247, 60, 149, 179, 145, 139, 163, 108, 210, 5, 113, 63]
    );
    // sections in the order appointments, lists, phone numbers,
    // anniversaries
    let mut data: Vec<u8> = Vec::new();
    data.extend(appointment.packet_with_length());
    data.extend(early.packet_with_length());
    data.extend(list.packet_with_length());
    data.extend(phone.packet_with_length());
    data.extend(first.packet_with_length());
    data.extend(second.packet_with_length());
    let pages = (data.len() + 31) / 32;
    let packets = eeprom.packets();
    assert_eq!(packets.len(), pages + 3);
    assert_eq!(packets[0], vec![0x93, 0x01]);
    let second_address = 0x0236 + 2 * appointment.packet_with_length().len();
    let third_address = second_address + 15;
    let fourth_address = third_address + 16;
    assert_eq!(
        packets[1],
        vec![
            0x90,
            0x01,
            pages as u8,
            0x02,
            0x36,
            (second_address >> 8) as u8,
            second_address as u8,
            (third_address >> 8) as u8,
            third_address as u8,
            (fourth_address >> 8) as u8,
            fourth_address as u8,
            2,
            1,
            1,
            2,
            99,
            2
        ]
    );
    let mut sent: Vec<u8> = Vec::new();
    for (i, packet) in packets[2..2 + pages].iter().enumerate() {
        assert_eq!(&packet[..3], &[0x91, 0x01, (i + 1) as u8]);
        sent.extend(&packet[3..]);
    }
    assert_eq!(sent, data);
    assert_eq!(packets[pages + 2], vec![0x92, 0x01]);
    // framed, the block is what the protocol 4 structs send
    let framed = eeprom.packets_with_crc();
    assert_eq!(framed.len(), packets.len());
    assert_eq!(framed[0], vec![5, 147, 1, 189, 49]);
    assert_eq!(framed[pages + 2], vec![5, 146, 1, 188, 161]);
    // a priority above 5 cannot be stored
    if let Protocol4::Eeprom { lists, .. } = &mut eeprom {
        lists.push(List { list_entry: String::new(), priority: 6 });
    }
    assert!(!eeprom.is_sendable());
}

#[test]
fn phone_record_of_the_command_is_that_of_the_struct() {
    let phone =
        PhoneNumber { name: "Doc".to_string(), number: "555".to_string(), type_: "w".to_string() };
    let same = timex_datalink::protocol_4::eeprom::PhoneNumber {
        name: timex_datalink::char_encoders::EepromString::new("Doc"),
        number: timex_datalink::char_encoders::PhoneString::new("555"),
        phone_type: timex_datalink::protocol_4::eeprom::phone_number::PhoneType::Work,
    };
    assert_eq!(phone.packet_with_length(), same.packet());
    // no mark of a kind: the number and spaces
    let plain =
        PhoneNumber { name: String::new(), number: "5".to_string(), type_: String::new() };
    assert_eq!(plain.packet(), vec![0xf5, 0xff, 0xff, 0xff, 0xff, 0xff, 0x3f]);
    let list = List { list_entry: "a".to_string(), priority: 0 };
    assert_eq!(list.packet(), vec![0, 0xca, 0x0f]);
}

#[test]
fn sound_and_app_commands() {
    let options = Protocol4::SoundOptions { hourly_chime: true, button_beep: false };
    assert_eq!(options.packets(), vec![vec![0x71, 1, 0]]);
    assert_eq!(options.packets_with_crc(), vec![vec![6, 113, 1, 0, 81, 3]]);
    assert_eq!(Protocol4::sound_options().packets(), vec![vec![0x71, 0, 1]]);
    // a theme whose file has not been read has nothing to send
    assert_eq!(Protocol4::sound_theme("a.spc").packets(), Vec::<Vec<u8>>::new());
    let mut file = vec![0x25, 0x04, 0x19, 0x69];
    file.extend(b"binary sound data that gets sent verbatim");
    let theme = Protocol4::sound_theme_with_data("a.spc", SoundThemeData { data: file });
    assert!(theme.is_sendable());
    assert_eq!(
        theme.packets_with_crc(),
        vec![
            vec![7, 144, 3, 2, 215, 41, 254],
            vec![
                38, 145, 3, 1, 98, 105, 110, 97, 114, 121, 32, 115, 111, 117, 110, 100, 32, 100,
                97, 116, 97, 32, 116, 104, 97, 116, 32, 103, 101, 116, 115, 32, 115, 101, 110,
                116, 235, 28,
            ],
            vec![15, 145, 3, 2, 32, 118, 101, 114, 98, 97, 116, 105, 109, 236, 75],
            vec![5, 146, 3, 61, 96],
        ]
    );
    let long = Protocol4::sound_theme_with_data("b.spc", SoundThemeData { data: vec![0; 257] });
    assert!(!long.is_sendable());
    // a wrist app: the code is section 18 of the container
    assert_eq!(Protocol4::wrist_app("a.zap").packets(), Vec::<Vec<u8>>::new());
    let mut zap = Vec::new();
    for _ in 0..18 {
        zap.extend(b"x\xac\r\n");
    }
    zap.extend(b"0102");
    let app = Protocol4::wrist_app_with_data("a.zap", WristAppData { data: zap });
    assert!(app.is_sendable());
    assert_eq!(
        app.packets(),
        vec![
            vec![0x93, 0x02],
            vec![0x90, 0x02, 1, 1],
            vec![0x91, 0x02, 1, 1, 2],
            vec![0x92, 0x02],
        ]
    );
    let broken = Protocol4::wrist_app_with_data("b.zap", WristAppData { data: vec![1, 2, 3] });
    assert!(!broken.is_sendable());
}

#[test]
fn commands_without_packets_and_constructors() {
    assert_eq!(Protocol4::end().packets(), vec![vec![0x21]]);
    assert_eq!(Protocol4::start().packets(), vec![vec![0x20, 0, 0, 4]]);
    let options = Protocol4::sound_options();
    assert!(options.is_sound_options());
    assert!(matches!(options, Protocol4::SoundOptions { hourly_chime: false, button_beep: true }));
    let theme = Protocol4::sound_theme("a.spc");
    assert!(theme.is_sound_theme());
    assert!(matches!(&theme, Protocol4::SoundTheme { spc_file, sound_theme_data: None } if spc_file == "a.spc"));
    let theme = Protocol4::sound_theme_with_data("a.spc", SoundThemeData { data: vec![1, 2] });
    assert!(matches!(&theme, Protocol4::SoundTheme { sound_theme_data: Some(d), .. } if d.data == vec![1, 2]));
    let app = Protocol4::wrist_app("a.zap");
    assert!(app.is_wrist_app());
    let app = Protocol4::wrist_app_with_data("a.zap", WristAppData { data: vec![3] });
    assert!(matches!(&app, Protocol4::WristApp { zap_file, wrist_app_data: Some(d) } if zap_file == "a.zap" && d.data == vec![3]));
    assert!(!app.is_eeprom() && !app.is_time() && !app.is_sound_theme());
    assert_eq!(DateFormat::MonthDayYear.as_str(), "M-D-Y");
    assert_eq!(DateFormat::DayMonthYear.as_str(), "D-M-Y");
    assert_eq!(DateFormat::YearMonthDay.as_str(), "Y-M-D");
    assert_eq!(DateFormat::MonthDotDayYear.as_str(), "M.D.Y");
    assert_eq!(DateFormat::DayDotMonthYear.as_str(), "D.M.Y");
    assert_eq!(DateFormat::YearDotMonthDay.as_str(), "Y.M.D");
    assert_eq!(DateFormat::YearDotMonthDay.to_code(), 6);
    assert_eq!(DateFormat::MonthDotDayYear.to_code(), 4);
    assert_eq!(DateFormat::default().to_code(), 0);
}
