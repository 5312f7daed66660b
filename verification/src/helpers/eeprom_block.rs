//! The layout of the watch's EEPROM block.
//!
//! The block holds four sections of records, in this order: appointments,
//! lists, phone numbers, anniversaries. A header tells the watch at which
//! address each section starts and how many records it has.

use vstd::prelude::*;
use vstd::arithmetic::div_mod::lemma_add_mod_noop;
use crate::helpers::cpacket_paginator::{
    lemma_page_lengths, page, page_count, page_index, paginate_cpackets, paginated,
};
use crate::helpers::crc_packets_wrapper::{
    crc_framed, crc_framed_all, lemma_framed_is_self_describing, wrap_packets_with_crc,
};
use crate::helpers::{count_byte, lemma_deep_view_bytes, lemma_deep_view_packets};

verus! {

/// The address of the first byte of the block in the watch's memory.
pub const START_ADDRESS: u16 = 0x0236;

/// The bytes per page of section data.
pub const CPACKET_DATA_LENGTH: usize = 32;

/// What the header holds where no appointment is announced ahead of time.
pub const APPOINTMENT_NO_NOTIFICATION: u8 = 0xff;

/// An address as two bytes, high byte first. Addresses have 16 bits.
pub open spec fn address_bytes(address: int) -> Seq<u8> {
    seq![((address % 0x1_0000) / 0x100) as u8, (address % 0x100) as u8]
}

/// The start addresses of the four sections, for the byte lengths of the
/// first three: each section starts where the one before it ends.
pub open spec fn section_addresses(appointments: nat, lists: nat, phone_numbers: nat) -> Seq<u8> {
    let first = START_ADDRESS as int;
    let second = first + appointments;
    let third = second + lists;
    let fourth = third + phone_numbers;
    address_bytes(first) + address_bytes(second) + address_bytes(third) + address_bytes(fourth)
}

/// How many records each section has, one byte apiece.
pub open spec fn section_counts(
    appointments: nat,
    lists: nat,
    phone_numbers: nat,
    anniversaries: nat,
) -> Seq<u8> {
    seq![
        count_byte(appointments),
        count_byte(lists),
        count_byte(phone_numbers),
        count_byte(anniversaries),
    ]
}

/// The bytes of the block: the records of the four sections, end to end.
pub open spec fn block_data(
    appointments: Seq<Seq<u8>>,
    lists: Seq<Seq<u8>>,
    phone_numbers: Seq<Seq<u8>>,
    anniversaries: Seq<Seq<u8>>,
) -> Seq<u8> {
    appointments.flatten() + lists.flatten() + phone_numbers.flatten() + anniversaries.flatten()
}

/// The header packet, from numbers: the command, the number of data pages,
/// the four addresses, the four counts, the earliest appointment year, and
/// the notification code.
pub open spec fn header_from(
    pages: nat,
    addresses: Seq<u8>,
    counts: Seq<u8>,
    earliest_year: u8,
    notification: u8,
) -> Seq<u8> {
    seq![0x90u8, 0x01u8, count_byte(pages)] + addresses + counts + seq![earliest_year, notification]
}

/// The header packet of a block.
pub open spec fn block_header(
    appointments: Seq<Seq<u8>>,
    lists: Seq<Seq<u8>>,
    phone_numbers: Seq<Seq<u8>>,
    anniversaries: Seq<Seq<u8>>,
    earliest_year: u8,
    notification: u8,
) -> Seq<u8> {
    header_from(
        block_pages(block_data(appointments, lists, phone_numbers, anniversaries)).len(),
        section_addresses(
            appointments.flatten().len(),
            lists.flatten().len(),
            phone_numbers.flatten().len(),
        ),
        section_counts(
            appointments.len(),
            lists.len(),
            phone_numbers.len(),
            anniversaries.len(),
        ),
        earliest_year,
        notification,
    )
}

/// The data packets of the block: the pages of its data, and for a block
/// without data one page without bytes, so that the watch is always sent a
/// data packet.
pub open spec fn block_pages(data: Seq<u8>) -> Seq<Seq<u8>> {
    if data.len() == 0 {
        seq![page(seq![0x91u8, 0x01u8], CPACKET_DATA_LENGTH as nat, data, 0)]
    } else {
        paginated(seq![0x91u8, 0x01u8], CPACKET_DATA_LENGTH as nat, data)
    }
}

/// The payloads around a header and the data of the block: the packet that
/// clears the EEPROM, the header, the data packets, the closing packet.
pub open spec fn raw_block(header: Seq<u8>, data: Seq<u8>) -> Seq<Seq<u8>> {
    seq![seq![0x93u8, 0x01u8], header] + block_pages(data) + seq![seq![0x92u8, 0x01u8]]
}

/// The packets around a header and the data of the block, each framed with
/// its checksum.
pub open spec fn framed_block(header: Seq<u8>, data: Seq<u8>) -> Seq<Seq<u8>> {
    crc_framed_all(raw_block(header, data))
}

/// The payloads of the block for the records of its four sections.
pub open spec fn block_payloads(
    appointments: Seq<Seq<u8>>,
    lists: Seq<Seq<u8>>,
    phone_numbers: Seq<Seq<u8>>,
    anniversaries: Seq<Seq<u8>>,
    earliest_year: u8,
    notification: u8,
) -> Seq<Seq<u8>> {
    raw_block(
        block_header(
            appointments,
            lists,
            phone_numbers,
            anniversaries,
            earliest_year,
            notification,
        ),
        block_data(appointments, lists, phone_numbers, anniversaries),
    )
}

/// The packets of the block for the records of its four sections.
pub open spec fn block_packets(
    appointments: Seq<Seq<u8>>,
    lists: Seq<Seq<u8>>,
    phone_numbers: Seq<Seq<u8>>,
    anniversaries: Seq<Seq<u8>>,
    earliest_year: u8,
    notification: u8,
) -> Seq<Seq<u8>> {
    crc_framed_all(
        block_payloads(
            appointments,
            lists,
            phone_numbers,
            anniversaries,
            earliest_year,
            notification,
        ),
    )
}

/// A block has at least one data packet; every data packet starts with the
/// data command and its index, counted from 1, and is not longer than the
/// command, the index and 32 bytes.
pub proof fn lemma_block_pages(data: Seq<u8>, i: int)
    requires
        0 <= i < block_pages(data).len(),
    ensures
        block_pages(data).len() >= 1,
        block_pages(data).len() == if data.len() == 0 {
            1
        } else {
            page_count(data.len(), CPACKET_DATA_LENGTH as nat)
        },
        block_pages(data)[i] == page(seq![0x91u8, 0x01u8], CPACKET_DATA_LENGTH as nat, data, i),
        3 <= block_pages(data)[i].len() <= 35,
        block_pages(data)[i][0] == 0x91 && block_pages(data)[i][1] == 0x01,
        block_pages(data)[i][2] == page_index(i),
        data.len() == 0 ==> block_pages(data) == seq![seq![0x91u8, 0x01u8, 1u8]],
{
    if data.len() > 0 {
        lemma_page_lengths(seq![0x91u8, 0x01u8], CPACKET_DATA_LENGTH as nat, data, i);
    } else {
        assert(block_pages(data)[0] =~= seq![0x91u8, 0x01u8, 1u8]);
        assert(block_pages(data) =~= seq![seq![0x91u8, 0x01u8, 1u8]]);
    }
}

/// The block is sent as the clearing packet, the header, at least one data
/// packet and the closing packet, four packets or more; the header
/// announces exactly as many data packets as are sent; and every packet
/// starts with its own length.
pub proof fn lemma_block_is_consistent(
    appointments: Seq<Seq<u8>>,
    lists: Seq<Seq<u8>>,
    phone_numbers: Seq<Seq<u8>>,
    anniversaries: Seq<Seq<u8>>,
    earliest_year: u8,
    notification: u8,
)
    ensures
        ({
            let packets = block_packets(
                appointments,
                lists,
                phone_numbers,
                anniversaries,
                earliest_year,
                notification,
            );
            let header = block_header(
                appointments,
                lists,
                phone_numbers,
                anniversaries,
                earliest_year,
                notification,
            );
            let data = block_data(appointments, lists, phone_numbers, anniversaries);
            let pages = block_pages(data);
            &&& pages.len() >= 1
            &&& packets.len() == pages.len() + 3
            &&& packets.len() >= 4
            &&& packets[0] == crc_framed(seq![0x93u8, 0x01u8])
            &&& packets[1] == crc_framed(header)
            &&& header.len() == 17
            &&& header[2] == count_byte(pages.len())
            &&& forall|i: int|
                0 <= i < pages.len() ==> #[trigger] packets[i + 2] == crc_framed(pages[i])
            &&& packets[pages.len() as int + 2] == crc_framed(seq![0x92u8, 0x01u8])
            &&& forall|k: int| 0 <= k < packets.len() ==> (#[trigger] packets[k])[0] == packets[k].len()
        }),
{
    let packets = block_packets(
        appointments,
        lists,
        phone_numbers,
        anniversaries,
        earliest_year,
        notification,
    );
    let header = block_header(
        appointments,
        lists,
        phone_numbers,
        anniversaries,
        earliest_year,
        notification,
    );
    let data = block_data(appointments, lists, phone_numbers, anniversaries);
    let pages = block_pages(data);
    let raw = raw_block(header, data);
    lemma_block_pages(data, 0);
    assert(packets == crc_framed_all(raw));
    assert(raw.len() == pages.len() + 3);
    assert forall|k: int| 0 <= k < packets.len() implies (#[trigger] packets[k])[0]
        == packets[k].len() by {
        lemma_framed_is_self_describing(raw[k]);
        if 2 <= k < pages.len() + 2 {
            assert(raw[k] == pages[k - 2]);
            lemma_block_pages(data, k - 2);
        }
    }
    assert forall|i: int| 0 <= i < pages.len() implies #[trigger] packets[i + 2] == crc_framed(
        pages[i],
    ) by {
        assert(raw[i + 2] == pages[i]);
    }
}

/// The smallest of some numbers; 0 where there is none.
pub open spec fn earliest(values: Seq<int>) -> int
    decreases values.len(),
{
    if values.len() == 0 {
        0
    } else if values.len() == 1 {
        values[0]
    } else {
        let before = earliest(values.drop_last());
        if values.last() < before {
            values.last()
        } else {
            before
        }
    }
}

/// `earliest` is one of the numbers and none of them is smaller.
pub proof fn lemma_earliest_is_minimum(values: Seq<int>)
    requires
        values.len() > 0,
    ensures
        values.contains(earliest(values)),
        forall|i: int| 0 <= i < values.len() ==> earliest(values) <= values[i],
    decreases values.len(),
{
    if values.len() > 1 {
        let front = values.drop_last();
        lemma_earliest_is_minimum(front);
        let m = earliest(front);
        let k = choose|k: int| 0 <= k < front.len() && front[k] == m;
        assert(values[k] == m);
        assert(values[values.len() - 1] == values.last());
        assert forall|i: int| 0 <= i < values.len() implies earliest(values) <= values[i] by {
            if i < front.len() {
                assert(front[i] == values[i]);
            }
        }
    } else {
        assert(values[0] == earliest(values));
    }
}

/// The records of one section, end to end.
pub fn concat_records(records: &Vec<Vec<u8>>) -> (bytes: Vec<u8>)
    ensures
        bytes@ == records.deep_view().flatten(),
{
    broadcast use lemma_deep_view_bytes, lemma_deep_view_packets;

    let mut bytes: Vec<u8> = Vec::new();
    let mut i: usize = 0;
    assert(records.deep_view().take(0) =~= Seq::<Seq<u8>>::empty());
    while i < records.len()
        invariant
            i <= records.len(),
            bytes@ == records.deep_view().take(i as int).flatten(),
        decreases records.len() - i,
    {
        bytes.extend_from_slice(records[i].as_slice());
        proof {
            let done = records.deep_view().take(i as int);
            assert(records.deep_view()[i as int] == records[i as int]@);
            assert(records.deep_view().take(i as int + 1) =~= done.push(records[i as int]@));
            done.lemma_flatten_push(records[i as int]@);
        }
        i += 1;
    }
    assert(records.deep_view().take(records.len() as int) =~= records.deep_view());
    bytes
}

/// Appends the two bytes of the address `length` bytes behind the start of
/// the block.
fn push_address(addresses: &mut Vec<u8>, offset: usize, Ghost(length): Ghost<nat>)
    requires
        offset == length % 0x1_0000,
    ensures
        final(addresses)@ == old(addresses)@ + address_bytes(START_ADDRESS + length),
{
    let address: usize = (0x0236 + offset) % 0x1_0000;
    let ghost total: int = START_ADDRESS + length;
    proof {
        lemma_add_mod_noop(START_ADDRESS as int, length as int, 0x1_0000);
        assert(address == total % 0x1_0000);
        vstd::arithmetic::div_mod::lemma_mod_mod(total, 0x100, 0x100);
        assert(address % 0x100 == total % 0x100);
    }
    let high: u8 = (address / 0x100) as u8;
    let low: u8 = (address % 0x100) as u8;
    addresses.push(high);
    addresses.push(low);
    assert(address_bytes(total) =~= seq![high, low]);
    assert(addresses@ =~= old(addresses)@ + seq![high, low]);
}

/// The sum of two lengths, in 16 bits.
fn add_lengths(offset: usize, length: usize, Ghost(before): Ghost<nat>) -> (sum: usize)
    requires
        offset == before % 0x1_0000,
    ensures
        sum == (before + length) % 0x1_0000,
{
    proof {
        lemma_add_mod_noop(before as int, length as int, 0x1_0000);
    }
    (offset + length % 0x1_0000) % 0x1_0000
}

/// The start addresses of the four sections, for the byte lengths of the
/// first three.
pub fn address_table(appointments: usize, lists: usize, phone_numbers: usize) -> (addresses: Vec<
    u8,
>)
    ensures
        addresses@ == section_addresses(
            appointments as nat,
            lists as nat,
            phone_numbers as nat,
        ),
{
    let mut addresses: Vec<u8> = Vec::new();
    push_address(&mut addresses, 0, Ghost(0));
    let offset = add_lengths(0, appointments, Ghost(0));
    push_address(&mut addresses, offset, Ghost(appointments as nat));
    let offset = add_lengths(offset, lists, Ghost(appointments as nat));
    push_address(&mut addresses, offset, Ghost((appointments + lists) as nat));
    let offset = add_lengths(offset, phone_numbers, Ghost((appointments + lists) as nat));
    push_address(&mut addresses, offset, Ghost((appointments + lists + phone_numbers) as nat));
    addresses
}

/// The record counts of the four sections, one byte apiece.
pub fn count_table(appointments: usize, lists: usize, phone_numbers: usize, anniversaries: usize) -> (counts:
    Vec<u8>)
    ensures
        counts@ == section_counts(
            appointments as nat,
            lists as nat,
            phone_numbers as nat,
            anniversaries as nat,
        ),
{
    let mut counts: Vec<u8> = Vec::new();
    counts.push((appointments % 256) as u8);
    counts.push((lists % 256) as u8);
    counts.push((phone_numbers % 256) as u8);
    counts.push((anniversaries % 256) as u8);
    assert(counts@ =~= section_counts(
        appointments as nat,
        lists as nat,
        phone_numbers as nat,
        anniversaries as nat,
    ));
    counts
}

/// The header packet, from its parts.
pub fn header_packet(
    pages: usize,
    addresses: &[u8],
    counts: &[u8],
    earliest_year: u8,
    notification: u8,
) -> (header: Vec<u8>)
    ensures
        header@ == header_from(pages as nat, addresses@, counts@, earliest_year, notification),
{
    let mut header: Vec<u8> = Vec::new();
    header.push(0x90);
    header.push(0x01);
    header.push((pages % 256) as u8);
    header.extend_from_slice(addresses);
    header.extend_from_slice(counts);
    header.push(earliest_year);
    header.push(notification);
    assert(header@ =~= header_from(
        pages as nat,
        addresses@,
        counts@,
        earliest_year,
        notification,
    ));
    header
}

/// The data packets of the block: the pages of its data, or one page
/// without bytes where there is no data.
pub fn data_pages(all_data: &[u8]) -> (payloads: Vec<Vec<u8>>)
    ensures
        payloads.deep_view() == block_pages(all_data@),
        payloads.len() == block_pages(all_data@).len(),
{
    let mut data_header: Vec<u8> = Vec::new();
    data_header.push(0x91);
    data_header.push(0x01);
    assert(data_header@ =~= seq![0x91u8, 0x01u8]);
    if all_data.len() == 0 {
        data_header.push(1);
        assert(data_header@ =~= page(
            seq![0x91u8, 0x01u8],
            CPACKET_DATA_LENGTH as nat,
            all_data@,
            0,
        ));
        let payloads = crate::helpers::one_packet(data_header);
        assert(payloads.deep_view().len() == payloads.len());
        payloads
    } else {
        let payloads = paginate_cpackets(data_header.as_slice(), CPACKET_DATA_LENGTH, all_data);
        assert(payloads.deep_view().len() == payloads.len());
        payloads
    }
}

/// The packet that clears the EEPROM, then the header.
fn lead_packets(header: Vec<u8>) -> (lead: Vec<Vec<u8>>)
    ensures
        lead.deep_view() == seq![seq![0x93u8, 0x01u8], header@],
{
    let mut clear: Vec<u8> = Vec::new();
    clear.push(0x93);
    clear.push(0x01);
    let mut lead: Vec<Vec<u8>> = Vec::new();
    lead.push(clear);
    lead.push(header);
    assert(lead.deep_view() =~~= seq![seq![0x93u8, 0x01u8], header@]) by {
        lemma_deep_view_bytes(lead@[0]);
        lemma_deep_view_bytes(lead@[1]);
    }
    lead
}

/// The records of the four sections, end to end.
pub fn concat_sections(
    appointments: &Vec<Vec<u8>>,
    lists: &Vec<Vec<u8>>,
    phone_numbers: &Vec<Vec<u8>>,
    anniversaries: &Vec<Vec<u8>>,
) -> (out: (Vec<u8>, (usize, usize, usize)))
    ensures
        out.0@ == block_data(
            appointments.deep_view(),
            lists.deep_view(),
            phone_numbers.deep_view(),
            anniversaries.deep_view(),
        ),
        out.1.0 == appointments.deep_view().flatten().len(),
        out.1.1 == lists.deep_view().flatten().len(),
        out.1.2 == phone_numbers.deep_view().flatten().len(),
{
    let appointment_bytes = concat_records(appointments);
    let list_bytes = concat_records(lists);
    let phone_bytes = concat_records(phone_numbers);
    let anniversary_bytes = concat_records(anniversaries);
    let mut all_data: Vec<u8> = Vec::new();
    all_data.extend_from_slice(appointment_bytes.as_slice());
    all_data.extend_from_slice(list_bytes.as_slice());
    all_data.extend_from_slice(phone_bytes.as_slice());
    all_data.extend_from_slice(anniversary_bytes.as_slice());
    assert(all_data@ =~= block_data(
        appointments.deep_view(),
        lists.deep_view(),
        phone_numbers.deep_view(),
        anniversaries.deep_view(),
    ));
    (all_data, (appointment_bytes.len(), list_bytes.len(), phone_bytes.len()))
}

/// Puts the payloads of the block around its header and its data packets:
/// the clearing packet, the header, the data packets, the closing packet.
pub fn join_block(header: Vec<u8>, payloads: Vec<Vec<u8>>) -> (packets: Vec<Vec<u8>>)
    ensures
        packets.deep_view() == seq![seq![0x93u8, 0x01u8], header@] + payloads.deep_view() + seq![
            seq![0x92u8, 0x01u8],
        ],
{
    let ghost pages = payloads.deep_view();
    let mut packets = lead_packets(header);
    let mut payloads = payloads;
    packets.append(&mut payloads);
    let mut end_packet: Vec<u8> = Vec::new();
    end_packet.push(0x92);
    end_packet.push(0x01);
    assert(end_packet@ =~= seq![0x92u8, 0x01u8]);
    packets.push(end_packet);
    assert(packets.deep_view() =~~= seq![seq![0x93u8, 0x01u8], header@] + pages + seq![
        seq![0x92u8, 0x01u8],
    ]) by {
        assert forall|k: int| 0 <= k < packets@.len() implies #[trigger] packets.deep_view()[k]
            == packets@[k]@ by {
            lemma_deep_view_bytes(packets@[k]);
        }
    }
    packets
}

/// Puts the packets of the block around its header and its data packets,
/// each framed with its checksum.
pub fn frame_block(header: Vec<u8>, payloads: Vec<Vec<u8>>) -> (packets: Vec<Vec<u8>>)
    ensures
        packets.deep_view() == crc_framed_all(
            seq![seq![0x93u8, 0x01u8], header@] + payloads.deep_view() + seq![
                seq![0x92u8, 0x01u8],
            ],
        ),
{
    wrap_packets_with_crc(join_block(header, payloads))
}

/// Makes the payloads of the block from the records of its four sections,
/// each record with its length byte in front.
pub fn assemble_payloads(
    appointments: &Vec<Vec<u8>>,
    lists: &Vec<Vec<u8>>,
    phone_numbers: &Vec<Vec<u8>>,
    anniversaries: &Vec<Vec<u8>>,
    earliest_year: u8,
    notification: u8,
) -> (packets: Vec<Vec<u8>>)
    ensures
        packets.deep_view() == block_payloads(
            appointments.deep_view(),
            lists.deep_view(),
            phone_numbers.deep_view(),
            anniversaries.deep_view(),
            earliest_year,
            notification,
        ),
{
    let ghost a = appointments.deep_view();
    let ghost l = lists.deep_view();
    let ghost p = phone_numbers.deep_view();
    let ghost n = anniversaries.deep_view();
    let (all_data, lengths) = concat_sections(appointments, lists, phone_numbers, anniversaries);
    let payloads = data_pages(all_data.as_slice());
    let addresses = address_table(lengths.0, lengths.1, lengths.2);
    let counts = count_table(
        appointments.len(),
        lists.len(),
        phone_numbers.len(),
        anniversaries.len(),
    );
    assert(a.len() == appointments.len() && l.len() == lists.len() && p.len()
        == phone_numbers.len() && n.len() == anniversaries.len());
    let header = header_packet(
        payloads.len(),
        addresses.as_slice(),
        counts.as_slice(),
        earliest_year,
        notification,
    );
    assert(header@ == block_header(a, l, p, n, earliest_year, notification));
    join_block(header, payloads)
}

/// Makes the packets of the block from the records of its four sections,
/// each record with its length byte in front and each packet framed with
/// its checksum: four packets at least.
pub fn assemble_block(
    appointments: &Vec<Vec<u8>>,
    lists: &Vec<Vec<u8>>,
    phone_numbers: &Vec<Vec<u8>>,
    anniversaries: &Vec<Vec<u8>>,
    earliest_year: u8,
    notification: u8,
) -> (packets: Vec<Vec<u8>>)
    ensures
        packets.deep_view() == block_packets(
            appointments.deep_view(),
            lists.deep_view(),
            phone_numbers.deep_view(),
            anniversaries.deep_view(),
            earliest_year,
            notification,
        ),
        packets.len() >= 4,
{
    proof {
        lemma_block_is_consistent(
            appointments.deep_view(),
            lists.deep_view(),
            phone_numbers.deep_view(),
            anniversaries.deep_view(),
            earliest_year,
            notification,
        );
    }
    let packets = wrap_packets_with_crc(
        assemble_payloads(
            appointments,
            lists,
            phone_numbers,
            anniversaries,
            earliest_year,
            notification,
        ),
    );
    assert(packets.deep_view().len() == packets.len());
    packets
}

/// The smallest of some years; 0 where there is none.
pub fn earliest_year_of(years: &Vec<i32>) -> (year: i32)
    ensures
        year == earliest(years@.map_values(|y: i32| y as int)),
{
    let ghost values = years@.map_values(|y: i32| y as int);
    if years.len() == 0 {
        return 0;
    }
    let mut year = years[0];
    let mut i: usize = 1;
    assert(values.take(1) =~= seq![values[0]]);
    while i < years.len()
        invariant
            1 <= i <= years.len(),
            values == years@.map_values(|y: i32| y as int),
            year == earliest(values.take(i as int)),
        decreases years.len() - i,
    {
        let ghost next = values.take(i as int + 1);
        assert(next.drop_last() =~= values.take(i as int));
        assert(next.last() == years@[i as int]);
        if years[i] < year {
            year = years[i];
        }
        i += 1;
    }
    assert(values.take(years.len() as int) =~= values);
    year
}

} // verus!
