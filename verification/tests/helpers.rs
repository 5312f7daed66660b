use timex_datalink::big_uint::pack_codes;
use timex_datalink::char_encoders::{chars_of, code_of, encode_char_list, encode_chars, CHARS};
use timex_datalink::helpers::cpacket_paginator::paginate_cpackets;
use timex_datalink::helpers::crc_packets_wrapper::{
    checksum_of, footer_from_crc, frame_with_crc, wrap_packets_with_crc,
};
use timex_datalink::helpers::eeprom_block::{
    address_table, assemble_block, assemble_payloads, concat_records, concat_sections,
    count_table, data_pages, earliest_year_of, frame_block, header_packet, join_block,
};
use timex_datalink::helpers::zap_file::{decode_hex, extract_code, split_sections, ZapError};
use timex_datalink::helpers::{concat_groups, join_section, one_packet};
use timex_datalink::protocol_4::alarm::build_alarm_payload;
use timex_datalink::protocol_4::eeprom::anniversary::build_anniversary_content;
use timex_datalink::protocol_4::eeprom::appointment::build_appointment_content;
use timex_datalink::protocol_4::eeprom::list::build_list_content;
use timex_datalink::protocol_4::sound_theme::{
    sound_data_of, sound_theme_packets, sound_theme_payloads,
};
use timex_datalink::protocol_4::sync::push_run;
use timex_datalink::protocol_4::wrist_app::{wrist_app_packets, wrist_app_payloads};

#[test]
fn pages_of_ten_bytes() {
    let data: Vec<u8> = (10..20).collect();
    assert_eq!(
        paginate_cpackets(&[0x91, 0x01], 4, &data),
        vec![
            vec![0x91, 0x01, 1, 10, 11, 12, 13],
            vec![0x91, 0x01, 2, 14, 15, 16, 17],
            vec![0x91, 0x01, 3, 18, 19],
        ]
    );
    // a chunk size that divides the length: no short page, no empty page
    assert_eq!(
        paginate_cpackets(&[7], 5, &data),
        vec![vec![7, 1, 10, 11, 12, 13, 14], vec![7, 2, 15, 16, 17, 18, 19]]
    );
    // one page for data shorter than a chunk
    assert_eq!(paginate_cpackets(&[], 32, &[5, 6]), vec![vec![1, 5, 6]]);
    // no page for no data
    assert_eq!(paginate_cpackets(&[0x91, 0x01], 32, &[]), Vec::<Vec<u8>>::new());
    assert_eq!(paginate_cpackets(&[0x91], usize::MAX, &[1]), vec![vec![0x91, 1, 1]]);
}

#[test]
fn pages_give_the_data_back() {
    let data: Vec<u8> = (0..1000u32).map(|i| (i * 7 % 251) as u8).collect();
    for size in [1usize, 2, 3, 31, 32, 33, 255, 999, 1000, 1001] {
        let header = [0xAB, 0xCD];
        let packets = paginate_cpackets(&header, size, &data);
        assert_eq!(packets.len(), (data.len() + size - 1) / size);
        let mut joined: Vec<u8> = Vec::new();
        for (i, packet) in packets.iter().enumerate() {
            assert_eq!(&packet[..2], &header);
            // the index counts 1, 2, 3, ... in one byte
            assert_eq!(packet[2], ((i + 1) % 256) as u8);
            assert!(packet.len() > 3 && packet.len() <= 3 + size);
            joined.extend(&packet[3..]);
        }
        assert_eq!(joined, data);
    }
}

#[test]
fn low_first_frame() {
    assert_eq!(footer_from_crc(0xC3BF), vec![0xBF, 0xC3]);
    assert_eq!(footer_from_crc(0x0003), vec![0x03, 0x00]);
    assert_eq!(checksum_of(&[0x20, 0, 0, 4]), 0xC3BF);
    assert_eq!(checksum_of(&[0x21]), 0xD8C2);
    assert_eq!(frame_with_crc(&[1, 2], 0xBB3D), vec![5, 1, 2, 0x3D, 0xBB]);
    assert_eq!(
        wrap_packets_with_crc(vec![vec![0x20, 0, 0, 4], vec![0x21]]),
        vec![vec![7, 0x20, 0, 0, 4, 0xBF, 0xC3], vec![4, 0x21, 0xC2, 0xD8]]
    );
    assert_eq!(wrap_packets_with_crc(vec![]), Vec::<Vec<u8>>::new());
    for len in 0..=252usize {
        let payload = vec![0x5Au8; len];
        let wrapped = wrap_packets_with_crc(vec![payload.clone()]);
        assert_eq!(wrapped[0].len(), len + 3);
        assert_eq!(wrapped[0][0] as usize, len + 3);
        assert_eq!(&wrapped[0][1..len + 1], &payload[..]);
        let crc = crc16::State::<crc16::ARC>::calculate(&wrapped[0][..len + 1]);
        assert_eq!(wrapped[0][len + 1], (crc & 0xff) as u8);
        assert_eq!(wrapped[0][len + 2], (crc >> 8) as u8);
    }
    // the length byte of a longer payload wraps round
    let wrapped = wrap_packets_with_crc(vec![vec![0; 341]]);
    assert_eq!(wrapped[0].len(), 344);
    assert_eq!(wrapped[0][0], 88);
}

#[test]
fn packing_of_code_lists() {
    assert_eq!(pack_codes(&[], 6), vec![0]);
    assert_eq!(pack_codes(&[0, 0], 6), vec![0]);
    assert_eq!(pack_codes(&[1], 6), vec![1]);
    // 1 + 2*64 + 3*4096 = 0x3081
    assert_eq!(pack_codes(&[1, 2, 3], 6), vec![0x81, 0x30]);
    // codes wider than their bits run into the next code: 255 + 16
    assert_eq!(pack_codes(&[0xff, 1], 4), vec![0x0f, 1]);
    assert_eq!(pack_codes(&[1, 2, 3, 4], 4), vec![0x21, 0x43]);
    assert_eq!(pack_codes(&[5, 6], 0), vec![11]);
    assert_eq!(pack_codes(&[1, 1], 8), vec![1, 1]);
    // 32 codes of 63 at 6 bits: 192 bits, all set
    assert_eq!(pack_codes(&[63; 32], 6), vec![0xff; 24]);
    let mut shifted = vec![0u8; 12];
    shifted.push(1);
    assert_eq!(pack_codes(&[0, 1], 96), shifted);
}

#[test]
fn codes_of_characters() {
    let map = chars_of("ab a");
    assert_eq!(map, vec!['a', 'b', ' ', 'a']);
    assert_eq!(code_of(&map, 'a'), 0);
    assert_eq!(code_of(&map, 'b'), 1);
    assert_eq!(code_of(&map, 'x'), 2);
    assert_eq!(code_of(&chars_of("ab"), 'x'), 0);
    assert_eq!(code_of(&chars_of(""), ' '), 0);
    // places count characters, not bytes
    let wide = chars_of("\u{e9}\u{4e2d} z");
    assert_eq!(code_of(&wide, 'z'), 3);
    assert_eq!(code_of(&wide, '\u{4e2d}'), 1);
    // codes have one byte: place 256 comes out as 0
    let long: String = ('\u{100}'..'\u{200}').chain(['q', 'r']).collect();
    let long = chars_of(&long);
    assert_eq!(code_of(&long, '\u{1ff}'), 255);
    assert_eq!(code_of(&long, 'q'), 0);
    assert_eq!(code_of(&long, 'r'), 1);
    assert_eq!(encode_char_list(&chars_of("ba"), &map, 3, true), vec![1, 0, 2]);
    assert_eq!(encode_chars("hello world", CHARS, 5, false), vec![17, 14, 21, 21, 24]);
    assert_eq!(
        encode_chars("hello", CHARS, 10, true),
        vec![17, 14, 21, 21, 24, 36, 36, 36, 36, 36]
    );
    // text is cut by characters
    assert_eq!(encode_chars("\u{e9}a", CHARS, 2, true), vec![36, 10]);
    assert_eq!(encode_chars("\u{e9}", CHARS, 2, true), vec![36, 36]);
}

#[test]
fn eeprom_block_tables() {
    assert_eq!(address_table(0, 0, 0), vec![2, 0x36, 2, 0x36, 2, 0x36, 2, 0x36]);
    assert_eq!(address_table(19, 0, 16), vec![2, 0x36, 2, 0x49, 2, 0x49, 2, 0x59]);
    // addresses have 16 bits
    assert_eq!(address_table(0x10000, 0xFDCA, 1), vec![2, 0x36, 2, 0x36, 0, 0, 0, 1]);
    assert_eq!(address_table(usize::MAX, 1, 0), vec![2, 0x36, 2, 0x35, 2, 0x36, 2, 0x36]);
    assert_eq!(count_table(1, 2, 3, 4), vec![1, 2, 3, 4]);
    assert_eq!(count_table(255, 256, 257, 0), vec![255, 0, 1, 0]);
    assert_eq!(
        header_packet(1, &[2, 54, 2, 73, 2, 73, 2, 73], &[1, 0, 0, 0], 22, 255),
        vec![144, 1, 1, 2, 54, 2, 73, 2, 73, 2, 73, 1, 0, 0, 0, 22, 255]
    );
    assert_eq!(header_packet(256, &[], &[], 0, 0), vec![144, 1, 0, 0, 0]);
    assert_eq!(earliest_year_of(&vec![]), 0);
    assert_eq!(earliest_year_of(&vec![2022]), 2022);
    assert_eq!(earliest_year_of(&vec![2022, 1999, 2005, 1999]), 1999);
    assert_eq!(earliest_year_of(&vec![-5, 3]), -5);
    assert_eq!(concat_records(&vec![vec![1], vec![], vec![2, 3]]), vec![1, 2, 3]);
    assert_eq!(concat_records(&vec![]), Vec::<u8>::new());
    assert_eq!(
        concat_sections(&vec![vec![1, 2]], &vec![], &vec![vec![3], vec![4]], &vec![vec![5]]),
        (vec![1, 2, 3, 4, 5], (2, 0, 2))
    );
    assert_eq!(data_pages(&[9; 33]).len(), 2);
    assert_eq!(data_pages(&[9; 33])[1], vec![0x91, 0x01, 2, 9]);
    assert_eq!(data_pages(&[9; 32]).len(), 1);
    // a block without data has one data packet without bytes
    assert_eq!(data_pages(&[]), vec![vec![0x91, 0x01, 1]]);
}

#[test]
fn eeprom_block_of_given_records() {
    let appointment = vec![
        19, 10, 31, 76, 28, 163, 108, 14, 217, 69, 14, 121, 57, 18, 20, 45, 216, 198, 253,
    ];
    let expected = vec![
        vec![5, 147, 1, 189, 49],
        vec![20, 144, 1, 1, 2, 54, 2, 73, 2, 73, 2, 73, 1, 0, 0, 0, 22, 255, 12, 146],
        vec![
            25, 145, 1, 1, 19, 10, 31, 76, 28, 163, 108, 14, 217, 69, 14, 121, 57, 18, 20, 45, 216,
            198, 253, 244, 161,
        ],
        vec![5, 146, 1, 188, 161],
    ];
    assert_eq!(
        assemble_block(&vec![appointment.clone()], &vec![], &vec![], &vec![], 22, 255),
        expected
    );
    let header = header_packet(1, &address_table(19, 0, 0), &count_table(1, 0, 0, 0), 22, 255);
    assert_eq!(frame_block(header.clone(), data_pages(&appointment)), expected);
    // the same block before framing
    let payloads = assemble_payloads(&vec![appointment.clone()], &vec![], &vec![], &vec![], 22, 255);
    assert_eq!(payloads, join_block(header.clone(), data_pages(&appointment)));
    assert_eq!(payloads.len(), 4);
    assert_eq!(payloads[0], vec![0x93, 0x01]);
    assert_eq!(payloads[1], header);
    assert_eq!(&payloads[2][..3], &[0x91, 0x01, 1]);
    assert_eq!(&payloads[2][3..], &appointment[..]);
    assert_eq!(payloads[3], vec![0x92, 0x01]);
    assert_eq!(wrap_packets_with_crc(payloads), expected);
    // no records: four packets all the same
    let empty = assemble_block(&vec![], &vec![], &vec![], &vec![], 0, 255);
    assert_eq!(empty.len(), 4);
    assert_eq!(&empty[1][..4], &[20, 144, 1, 1]);
    assert_eq!(&empty[2][..4], &[6, 0x91, 0x01, 1]);
    // two records of 20 bytes take two pages
    let packets = assemble_block(&vec![], &vec![vec![20; 20], vec![20; 20]], &vec![], &vec![], 0, 1);
    assert_eq!(packets.len(), 5);
    assert_eq!(&packets[1][..18], &[20, 144, 1, 2, 2, 54, 2, 54, 2, 94, 2, 94, 0, 2, 0, 0, 0, 1]);
    assert_eq!(packets[2].len(), 38);
    assert_eq!(packets[3].len(), 14);
}

#[test]
fn sections_of_a_container() {
    assert_eq!(split_sections(b""), Vec::<Vec<u8>>::new());
    assert_eq!(split_sections(b"abc"), vec![b"abc".to_vec()]);
    assert_eq!(
        split_sections(b"one\xac comment\r\ntwo\xacthree"),
        vec![b"one".to_vec(), b"two".to_vec()]
    );
    // a comment runs to a carriage return with a line feed, not to either
    // alone
    assert_eq!(
        split_sections(b"a\xac\rx\ny\r\nb\r\nc"),
        vec![b"a".to_vec(), b"b\r\nc".to_vec()]
    );
    assert_eq!(split_sections(b"\xac\r\n\xac\r\n"), Vec::<Vec<u8>>::new());
    assert_eq!(split_sections(b"a\xac\r"), vec![b"a".to_vec()]);
    assert_eq!(decode_hex(b""), Vec::<u8>::new());
    assert_eq!(decode_hex(b"0"), Vec::<u8>::new());
    assert_eq!(decode_hex(b"00ff7F"), vec![0, 255, 127]);
    assert_eq!(decode_hex(b"0g12"), vec![0x12]);
    assert_eq!(decode_hex(b"g0123"), vec![0x23]);
    assert_eq!(decode_hex(b"gg"), Vec::<u8>::new());
    // a line end is passed over together with the digit behind it
    assert_eq!(decode_hex(b"12\r\n34"), vec![0x12]);
    assert_eq!(decode_hex(b"12\r\n034"), vec![0x12, 0x34]);
    assert_eq!(extract_code(b"00\xac\r\n41", 1), Ok(vec![0x41]));
    assert_eq!(extract_code(b"00\xac\r\n41", 0), Ok(vec![0]));
    assert_eq!(extract_code(b"00\xac\r\n41", 2), Err(ZapError { expected: 3, found: 2 }));
}

#[test]
fn small_builders() {
    assert_eq!(one_packet(vec![1, 2]), vec![vec![1, 2]]);
    assert_eq!(
        concat_groups(&vec![vec![vec![1]], vec![], vec![vec![2], vec![3, 4]]]),
        vec![vec![1], vec![2], vec![3, 4]]
    );
    assert_eq!(
        join_section(vec![vec![1]], vec![vec![2], vec![3]], vec![4]),
        vec![vec![1], vec![2], vec![3], vec![4]]
    );
    let mut run = vec![9];
    push_run(&mut run, 7, 3);
    push_run(&mut run, 8, 0);
    assert_eq!(run, vec![9, 7, 7, 7]);
    assert_eq!(
        build_alarm_payload(3, 9, 10, &[16, 14], false),
        vec![0x50, 3, 9, 10, 0, 0, 16, 14, 0]
    );
    assert_eq!(build_anniversary_content(7, 3, &[1, 2]), vec![7, 3, 1, 2]);
    assert_eq!(build_list_content(2, &[9]), vec![2, 9]);
    let civil = timex_datalink::calendar::civil_time(1_667_242_800).unwrap();
    assert_eq!(build_appointment_content(&civil, &[5]), vec![10, 31, 76, 5]);
    assert_eq!(sound_data_of(&[0x25, 0x04, 0x19, 0x69, 1, 2]), &[1, 2]);
    assert_eq!(sound_data_of(&[0x25, 0x04, 0x19, 0x68, 1, 2]), &[0x25, 0x04, 0x19, 0x68, 1, 2]);
    assert_eq!(sound_data_of(&[0x25, 0x04, 0x19]), &[0x25, 0x04, 0x19]);
    assert_eq!(sound_data_of(&[0x25, 0x04, 0x19, 0x69]), &[] as &[u8]);
    assert_eq!(
        sound_theme_payloads(&[7, 8]),
        vec![vec![0x90, 0x03, 1, 254], vec![0x91, 0x03, 1, 7, 8], vec![0x92, 0x03]]
    );
    assert_eq!(
        wrist_app_payloads(&[7]),
        vec![vec![0x93, 0x02], vec![0x90, 0x02, 1, 1], vec![0x91, 0x02, 1, 7], vec![0x92, 0x02]]
    );
    assert_eq!(wrist_app_packets(&[]).len(), 3);
    assert_eq!(&wrist_app_packets(&[1; 33])[1][..5], &[7, 0x90, 0x02, 2, 1]);
    assert_eq!(&sound_theme_packets(&[1; 33])[0][..5], &[7, 0x90, 0x03, 2, 223]);
}
