//! Reading the code section out of a wrist app container.
//!
//! A container is a run of sections. A byte 0xAC ends a section; what
//! follows it, up to and with the next carriage return and line feed, is a
//! comment. Sections that hold no byte do not count. The code section is
//! written in hexadecimal digits.

use vstd::prelude::*;

verus! {

/// The byte that ends a section.
pub const SECTION_END: u8 = 0xAC;

/// A container that has too few sections to hold the code section.
#[derive(Debug, Clone, Copy, PartialEq, Eq)]
pub struct ZapError {
    /// How many sections the code section needs before it and with it.
    pub expected: usize,
    /// How many sections the container has.
    pub found: usize,
}

/// The value of a hexadecimal digit, in either case.
pub open spec fn hex_value(digit: u8) -> Option<u8> {
    if 0x30 <= digit <= 0x39 {
        Some((digit - 0x30) as u8)
    } else if 0x41 <= digit <= 0x46 {
        Some((digit - 0x41 + 10) as u8)
    } else if 0x61 <= digit <= 0x66 {
        Some((digit - 0x61 + 10) as u8)
    } else {
        None
    }
}

/// Whether a carriage return and a line feed stand at place `i`.
pub open spec fn line_end_at(data: Seq<u8>, i: int) -> bool {
    0 <= i && i + 1 < data.len() && data[i] == 0x0D && data[i + 1] == 0x0A
}

/// The section `current`, if it holds anything.
pub open spec fn closed_section(current: Seq<u8>) -> Seq<Seq<u8>> {
    if current.len() > 0 {
        seq![current]
    } else {
        Seq::empty()
    }
}

/// The sections of `data` from place `i` on, where `current` holds the
/// bytes of the open section and `in_comment` says whether place `i` lies
/// in a comment.
pub open spec fn sections_from(data: Seq<u8>, i: int, current: Seq<u8>, in_comment: bool) -> Seq<
    Seq<u8>,
>
    decreases data.len() - i,
{
    if i < 0 || i >= data.len() {
        closed_section(current)
    } else if in_comment {
        if line_end_at(data, i) {
            sections_from(data, i + 2, current, false)
        } else {
            sections_from(data, i + 1, current, true)
        }
    } else if data[i] == SECTION_END {
        closed_section(current) + sections_from(data, i + 1, Seq::empty(), true)
    } else {
        sections_from(data, i + 1, current.push(data[i]), false)
    }
}

/// The sections of a container.
pub open spec fn sections_of(data: Seq<u8>) -> Seq<Seq<u8>> {
    sections_from(data, 0, Seq::empty(), false)
}

/// The bytes that the hexadecimal text `text` stands for, read from place
/// `i` on: two digits make a byte; a pair whose first character is no
/// digit is passed over together with the character behind it; a pair whose
/// second character is no digit is passed over.
pub open spec fn hex_decoded_from(text: Seq<u8>, i: int) -> Seq<u8>
    decreases text.len() - i,
{
    if i < 0 || i + 1 >= text.len() {
        Seq::empty()
    } else {
        match (hex_value(text[i]), hex_value(text[i + 1])) {
            (Some(high), Some(low)) => seq![(high * 16 + low) as u8] + hex_decoded_from(
                text,
                i + 2,
            ),
            (None, _) => if i + 3 <= text.len() {
                hex_decoded_from(text, i + 3)
            } else {
                Seq::empty()
            },
            (Some(_), None) => hex_decoded_from(text, i + 2),
        }
    }
}

/// The bytes that hexadecimal text stands for.
pub open spec fn hex_decoded(text: Seq<u8>) -> Seq<u8> {
    hex_decoded_from(text, 0)
}

/// The code of a container whose code section is section `index`, counted
/// from 0.
pub open spec fn code_of_container(data: Seq<u8>, index: nat) -> Result<Seq<u8>, ZapError> {
    let sections = sections_of(data);
    if sections.len() <= index {
        Err(ZapError { expected: (index + 1) as usize, found: sections.len() as usize })
    } else {
        Ok(hex_decoded(sections[index as int]))
    }
}

/// The value of a hexadecimal digit.
pub fn hex_digit_to_value(digit: u8) -> (value: Option<u8>)
    ensures
        value == hex_value(digit),
        value is Some ==> value->0 < 16,
{
    if 0x30 <= digit && digit <= 0x39 {
        Some(digit - 0x30)
    } else if 0x41 <= digit && digit <= 0x46 {
        Some(digit - 0x41 + 10)
    } else if 0x61 <= digit && digit <= 0x66 {
        Some(digit - 0x61 + 10)
    } else {
        None
    }
}

/// Splits a container into its sections.
pub fn split_sections(zap_data: &[u8]) -> (sections: Vec<Vec<u8>>)
    ensures
        sections.deep_view() == sections_of(zap_data@),
{
    broadcast use crate::helpers::lemma_deep_view_bytes, crate::helpers::lemma_deep_view_packets;

    let mut sections: Vec<Vec<u8>> = Vec::new();
    let mut current_section: Vec<u8> = Vec::new();
    let mut in_comment = false;
    let mut i: usize = 0;
    assert(sections.deep_view() =~= Seq::<Seq<u8>>::empty());
    while i < zap_data.len()
        invariant
            i <= zap_data.len(),
            sections.deep_view() + sections_from(zap_data@, i as int, current_section@, in_comment)
                == sections_of(zap_data@),
        decreases zap_data.len() - i,
    {
        let ghost done = sections.deep_view();
        let ghost open = current_section@;
        if in_comment {
            if zap_data[i] == 0x0D && i + 1 < zap_data.len() && zap_data[i + 1] == 0x0A {
                in_comment = false;
                i += 2;
            } else {
                i += 1;
            }
        } else if zap_data[i] == SECTION_END {
            let ghost rest = sections_from(zap_data@, i as int + 1, Seq::empty(), true);
            if current_section.len() > 0 {
                sections.push(current_section);
                assert(sections@.last()@ == open);
                assert(sections.deep_view().last() == open);
                assert(sections.deep_view() =~= done.push(open));
                current_section = Vec::new();
            }
            assert(current_section@ =~= Seq::<u8>::empty());
            assert(sections.deep_view() + rest =~= done + (closed_section(open) + rest));
            in_comment = true;
            i += 1;
        } else {
            current_section.push(zap_data[i]);
            i += 1;
        }
    }
    if current_section.len() > 0 {
        let ghost done = sections.deep_view();
        let ghost open = current_section@;
        sections.push(current_section);
        assert(sections.deep_view() =~= done + closed_section(open));
    } else {
        assert(sections.deep_view() + Seq::<Seq<u8>>::empty() =~= sections.deep_view());
    }
    sections
}

/// Reads hexadecimal text into bytes.
pub fn decode_hex(text: &[u8]) -> (bytes: Vec<u8>)
    ensures
        bytes@ == hex_decoded(text@),
{
    let mut bytes: Vec<u8> = Vec::new();
    let mut i: usize = 0;
    assert(bytes@ + hex_decoded_from(text@, 0) =~= hex_decoded(text@));
    while i < text.len() && i + 1 < text.len()
        invariant
            bytes@ + hex_decoded_from(text@, i as int) == hex_decoded(text@),
        decreases text.len() - i,
    {
        let ghost before = bytes@;
        let high = hex_digit_to_value(text[i]);
        let low = hex_digit_to_value(text[i + 1]);
        match (high, low) {
            (Some(high), Some(low)) => {
                bytes.push(high * 16 + low);
                assert(bytes@ + hex_decoded_from(text@, i as int + 2) =~= before
                    + hex_decoded_from(text@, i as int));
                i += 2;
            },
            (None, _) => {
                if text.len() - i < 3 {
                    i = text.len();
                } else {
                    i += 3;
                }
            },
            (Some(_), None) => {
                i += 2;
            },
        }
    }
    assert(bytes@ + Seq::<u8>::empty() =~= bytes@);
    bytes
}

/// Takes the code out of a container whose code section is section `index`,
/// counted from 0.
pub fn extract_code(zap_data: &[u8], index: usize) -> (code: Result<Vec<u8>, ZapError>)
    requires
        index < usize::MAX,
    ensures
        match code {
            Ok(bytes) => code_of_container(zap_data@, index as nat) == Ok::<Seq<u8>, ZapError>(
                bytes@,
            ),
            Err(e) => code_of_container(zap_data@, index as nat) == Err::<Seq<u8>, ZapError>(e),
        },
{
    broadcast use crate::helpers::lemma_deep_view_bytes, crate::helpers::lemma_deep_view_packets;

    let sections = split_sections(zap_data);
    if sections.len() <= index {
        Err(ZapError { expected: index + 1, found: sections.len() })
    } else {
        Ok(decode_hex(sections[index].as_slice()))
    }
}

} // verus!
