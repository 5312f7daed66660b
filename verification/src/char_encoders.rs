//! Text in the watch's character sets.
//!
//! A character's code is its position in an alphabet. Text is lower-cased,
//! cut to a maximum length, and characters that the alphabet lacks become
//! its space. Nothing here fails: the watch shows what it can.

use vstd::prelude::*;
use vstd::string::StrSliceExecFns;
use vstd::slice::slice_subrange;
use vstd::array::array_as_slice;
use vstd::arithmetic::power2::{lemma2_to64, pow2};
use crate::big_uint::{
    bytes_le, codes_fit, lemma_packed_length, lemma_packing_is_injective, pack_codes, packed_value,
};

verus! {

/// The alphabet of most watch functions.
pub const CHARS: &'static str = "0123456789abcdefghijklmnopqrstuvwxyz !\"#$%&'()*+,-./:\\;=@?_|<>[]";

/// The alphabet of protocol 6 watches.
pub const CHARS_PROTOCOL_6: &'static str =
    "0123456789 abcdefghijklmnopqrstuvwxyz!\"#$%&'()*+,-./:;<=>?@[\\]^_`{|}~";

/// The alphabet of text stored in EEPROM.
pub const EEPROM_CHARS: &'static str = "0123456789abcdefghijklmnopqrstuvwxyz !\"#$%&'()*+,-./:\\;=@?_|<>[";

/// The alphabet of phone numbers.
pub const PHONE_CHARS: &'static str = "0123456789cfhpw ";

/// What stands in for a character that an alphabet lacks.
pub const INVALID_CHAR: char = ' ';

/// The code that ends a text stored in EEPROM.
pub const EEPROM_TERMINATOR: u8 = 0x3f;

/// Longest text stored in EEPROM, in characters.
pub const EEPROM_MAX_CHARS: usize = 31;

/// Longest phone number, in characters.
pub const PHONE_MAX_CHARS: usize = 12;

/// The lower-case form of a text, as `str::to_lowercase` gives it.
pub uninterp spec fn lowercase(text: Seq<char>) -> Seq<char>;

/// Calls `str::to_lowercase`. Trusted: the result depends on the characters
/// of the text alone.
#[verifier::external_body]
pub(crate) fn to_lowercase(text: &str) -> (lower: String)
    ensures
        lower@ == lowercase(text@),
{
    text.to_lowercase()
}

/// `p` is the first place at which `c` stands in `map`.
pub open spec fn is_first_position(map: Seq<char>, c: char, p: int) -> bool {
    &&& 0 <= p < map.len()
    &&& map[p] == c
    &&& forall|j: int| 0 <= j < p ==> map[j] != c
}

/// The first place at which `c` stands in `map`, for a `c` that `map` holds.
pub open spec fn position_of(map: Seq<char>, c: char) -> int {
    choose|p: int| is_first_position(map, c, p)
}

/// The one-byte code of the character at place `p`.
pub open spec fn code_at(p: int) -> u8 {
    (p % 256) as u8
}

/// The code of `c` in `map`: its place; the place of the space where `map`
/// lacks `c`; 0 where it lacks both.
pub open spec fn char_code(map: Seq<char>, c: char) -> u8 {
    if map.contains(c) {
        code_at(position_of(map, c))
    } else if map.contains(INVALID_CHAR) {
        code_at(position_of(map, INVALID_CHAR))
    } else {
        0
    }
}

/// The codes of the first `max_len` characters of `text`.
pub open spec fn text_codes(text: Seq<char>, map: Seq<char>, max_len: nat) -> Seq<u8> {
    Seq::new(
        if text.len() <= max_len { text.len() } else { max_len },
        |i: int| char_code(map, text[i]),
    )
}

/// The codes of `text` in `map`, cut to `max_len` and, with `pad`, filled up
/// to `max_len` with the code of the space.
pub open spec fn encoded(text: Seq<char>, map: Seq<char>, max_len: nat, pad: bool) -> Seq<u8> {
    let codes = text_codes(text, map, max_len);
    if pad {
        codes + Seq::new((max_len - codes.len()) as nat, |i: int| char_code(map, INVALID_CHAR))
    } else {
        codes
    }
}

/// The first place of a character is the only first place.
pub proof fn lemma_first_position_unique(map: Seq<char>, c: char, p: int)
    requires
        is_first_position(map, c, p),
    ensures
        map.contains(c),
        position_of(map, c) == p,
{
    let q = position_of(map, c);
    assert(is_first_position(map, c, q));
    if q < p {
        assert(map[q] != c);
    }
    if p < q {
        assert(map[p] != c);
    }
}

/// Padded text has the full length, starts with the unpadded codes and ends
/// in space codes; unpadded text is never longer than the maximum.
pub proof fn lemma_encoded_shape(text: Seq<char>, map: Seq<char>, max_len: nat)
    ensures
        encoded(text, map, max_len, true).len() == max_len,
        encoded(text, map, max_len, false).len() <= max_len,
        encoded(text, map, max_len, false).len() == if text.len() <= max_len {
            text.len()
        } else {
            max_len
        },
        encoded(text, map, max_len, true).take(encoded(text, map, max_len, false).len() as int)
            == encoded(text, map, max_len, false),
        forall|i: int|
            encoded(text, map, max_len, false).len() <= i < max_len ==> #[trigger] encoded(
                text,
                map,
                max_len,
                true,
            )[i] == char_code(map, INVALID_CHAR),
{
    let short = encoded(text, map, max_len, false);
    let long = encoded(text, map, max_len, true);
    assert(long.take(short.len() as int) =~= short);
}

/// The characters of a string, one by one.
pub fn chars_of(text: &str) -> (chars: Vec<char>)
    ensures
        chars@ == text@,
{
    let n = text.unicode_len();
    let mut chars: Vec<char> = Vec::new();
    let mut i: usize = 0;
    while i < n
        invariant
            i <= n,
            n == text@.len(),
            chars@ == text@.take(i as int),
        decreases n - i,
    {
        let c = text.get_char(i);
        chars.push(c);
        assert(chars@ =~= text@.take(i as int + 1));
        i += 1;
    }
    assert(text@.take(n as int) =~= text@);
    chars
}

/// Where `c` first stands in `map`, if anywhere.
fn find_char(map: &Vec<char>, c: char) -> (found: Option<usize>)
    ensures
        match found {
            Some(p) => is_first_position(map@, c, p as int),
            None => !map@.contains(c),
        },
{
    let mut i: usize = 0;
    while i < map.len()
        invariant
            i <= map.len(),
            forall|j: int| 0 <= j < i ==> map@[j] != c,
        decreases map.len() - i,
    {
        if map[i] == c {
            return Some(i);
        }
        i += 1;
    }
    None
}

/// The code of `c` in the alphabet `map`.
pub fn code_of(map: &Vec<char>, c: char) -> (code: u8)
    ensures
        code == char_code(map@, c),
{
    match find_char(map, c) {
        Some(p) => {
            proof {
                lemma_first_position_unique(map@, c, p as int);
            }
            (p % 256) as u8
        },
        None => match find_char(map, INVALID_CHAR) {
            Some(p) => {
                proof {
                    lemma_first_position_unique(map@, INVALID_CHAR, p as int);
                }
                (p % 256) as u8
            },
            None => 0,
        },
    }
}

/// Encodes a list of characters that are in lower case already: the codes
/// of the first `max_len` of them in `map`, then, with `pad`, space codes up
/// to `max_len`.
pub fn encode_char_list(chars: &Vec<char>, map: &Vec<char>, max_len: usize, pad: bool) -> (codes:
    Vec<u8>)
    ensures
        codes@ == encoded(chars@, map@, max_len as nat, pad),
{
    let kept: usize = if chars.len() <= max_len { chars.len() } else { max_len };
    let mut codes: Vec<u8> = Vec::new();
    let mut i: usize = 0;
    while i < kept
        invariant
            i <= kept,
            kept <= chars.len(),
            kept == if chars@.len() <= max_len { chars@.len() } else { max_len as nat },
            codes@ == text_codes(chars@, map@, max_len as nat).take(i as int),
        decreases kept - i,
    {
        let code = code_of(map, chars[i]);
        codes.push(code);
        assert(codes@ =~= text_codes(chars@, map@, max_len as nat).take(i as int + 1));
        i += 1;
    }
    assert(codes@ =~= text_codes(chars@, map@, max_len as nat));
    if pad {
        let space = code_of(map, INVALID_CHAR);
        let ghost unpadded = codes@;
        while i < max_len
            invariant
                kept <= i <= max_len,
                unpadded.len() == kept,
                space == char_code(map@, INVALID_CHAR),
                codes@ == unpadded + Seq::new((i - kept) as nat, |j: int| space),
            decreases max_len - i,
        {
            codes.push(space);
            assert(codes@ =~= unpadded + Seq::new((i + 1 - kept) as nat, |j: int| space));
            i += 1;
        }
        assert(codes@ =~= encoded(chars@, map@, max_len as nat, true));
    }
    codes
}

/// Encodes text that is in lower case already: the codes of its first
/// `max_len` characters in `charset`, then, with `pad`, space codes up to
/// `max_len`.
pub fn encode_chars(text: &str, charset: &str, max_len: usize, pad: bool) -> (codes: Vec<u8>)
    ensures
        codes@ == encoded(text@, charset@, max_len as nat, pad),
{
    let map = chars_of(charset);
    let chars = chars_of(text);
    encode_char_list(&chars, &map, max_len, pad)
}

/// Text in a watch alphabet, in a buffer of `MAX_LEN` codes.
///
/// The buffer is filled to the end with the code of the space; the text
/// itself is the first `len` codes.
#[derive(Debug, Clone, Copy, PartialEq, Eq)]
pub struct CharString<const MAX_LEN: usize> {
    bytes: [u8; MAX_LEN],
    len: usize,
}

impl<const MAX_LEN: usize> View for CharString<MAX_LEN> {
    type V = Seq<u8>;

    /// The codes of the text.
    closed spec fn view(&self) -> Seq<u8> {
        self.bytes@.take(self.len as int)
    }
}

impl<const MAX_LEN: usize> CharString<MAX_LEN> {
    /// The text fits in the buffer.
    #[verifier::type_invariant]
    pub closed spec fn well_formed(self) -> bool {
        self.len <= MAX_LEN
    }

    /// The whole buffer, text and filling.
    pub closed spec fn array_view(&self) -> Seq<u8> {
        self.bytes@
    }

    /// The value that holds lower-case `text` in the standard alphabet,
    /// without padding.
    pub open spec fn unpadded(text: Seq<char>) -> Self {
        choose|s: Self|
            s.well_formed() && s@ == encoded(text, CHARS@, MAX_LEN as nat, false)
                && s.array_view() == encoded(text, CHARS@, MAX_LEN as nat, true)
    }

    /// A value is known by its text and its buffer.
    pub proof fn lemma_same_views_same_value(a: Self, b: Self)
        requires
            a.well_formed(),
            b.well_formed(),
            a@ == b@,
            a.array_view() == b.array_view(),
        ensures
            a == b,
    {
        assert(a@.len() == a.len && b@.len() == b.len);
        assert(a.bytes =~= b.bytes);
    }

    /// The text never outgrows the buffer and is its beginning.
    pub proof fn lemma_text_within_buffer(&self)
        requires
            self.well_formed(),
        ensures
            self@.len() <= MAX_LEN,
            self.array_view().len() == MAX_LEN,
            self@ == self.array_view().take(self@.len() as int),
    {
    }

    /// Encodes `input` in the standard alphabet.
    pub fn new(input: &str, pad: bool) -> (s: Self)
        ensures
            s@ == encoded(lowercase(input@), CHARS@, MAX_LEN as nat, pad),
            s.array_view() == encoded(lowercase(input@), CHARS@, MAX_LEN as nat, true),
    {
        Self::new_with_charset(input, CHARS, pad)
    }

    /// Encodes `input` in the protocol 6 alphabet.
    pub fn new_protocol_6(input: &str, pad: bool) -> (s: Self)
        ensures
            s@ == encoded(lowercase(input@), CHARS_PROTOCOL_6@, MAX_LEN as nat, pad),
            s.array_view() == encoded(lowercase(input@), CHARS_PROTOCOL_6@, MAX_LEN as nat, true),
    {
        Self::new_with_charset(input, CHARS_PROTOCOL_6, pad)
    }

    /// Encodes `input` in the alphabet `charset`: lower-cased, cut to
    /// `MAX_LEN` characters, and with `pad` filled up with spaces.
    pub fn new_with_charset(input: &str, charset: &str, pad: bool) -> (s: Self)
        ensures
            s@ == encoded(lowercase(input@), charset@, MAX_LEN as nat, pad),
            s.array_view() == encoded(lowercase(input@), charset@, MAX_LEN as nat, true),
    {
        let lower = to_lowercase(input);
        Self::from_lowercase(lower.as_str(), charset, pad)
    }

    /// Encodes text that is in lower case already.
    pub fn from_lowercase(text: &str, charset: &str, pad: bool) -> (s: Self)
        ensures
            s@ == encoded(text@, charset@, MAX_LEN as nat, pad),
            s.array_view() == encoded(text@, charset@, MAX_LEN as nat, true),
    {
        let padded = encode_chars(text, charset, MAX_LEN, true);
        let chars = text.unicode_len();
        let mut bytes: [u8; MAX_LEN] = [0u8; MAX_LEN];
        let mut i: usize = 0;
        while i < MAX_LEN
            invariant
                i <= MAX_LEN,
                padded@.len() == MAX_LEN,
                forall|j: int| 0 <= j < i ==> bytes@[j] == padded@[j],
            decreases MAX_LEN - i,
        {
            bytes[i] = padded[i];
            i += 1;
        }
        assert(bytes@ =~= padded@);
        let len: usize = if pad || chars > MAX_LEN { MAX_LEN } else { chars };
        proof {
            lemma_encoded_shape(text@, charset@, MAX_LEN as nat);
            assert(bytes@.take(len as int) =~= encoded(text@, charset@, MAX_LEN as nat, pad));
        }
        CharString { bytes, len }
    }

    /// The codes of the text.
    pub fn as_bytes(&self) -> (bytes: &[u8])
        ensures
            bytes@ == self@,
    {
        proof {
            use_type_invariant(self);
        }
        slice_subrange(array_as_slice(&self.bytes), 0, self.len)
    }

    /// The whole buffer: the codes of the text, then space codes.
    pub fn as_array(&self) -> (array: &[u8; MAX_LEN])
        ensures
            array@ == self.array_view(),
    {
        &self.bytes
    }

    /// How many codes the text has.
    pub fn len(&self) -> (len: usize)
        ensures
            len == self@.len(),
    {
        proof {
            use_type_invariant(self);
        }
        self.len
    }

    /// Whether the text has no codes.
    pub fn is_empty(&self) -> (empty: bool)
        ensures
            empty == (self@.len() == 0),
    {
        proof {
            use_type_invariant(self);
        }
        self.len == 0
    }
}

impl<const MAX_LEN: usize> Default for CharString<MAX_LEN> {
    /// The empty text over a buffer of zeros.
    fn default() -> (s: Self)
        ensures
            s@ == Seq::<u8>::empty(),
            s.array_view() == Seq::new(MAX_LEN as nat, |i: int| 0u8),
    {
        let bytes: [u8; MAX_LEN] = [0u8; MAX_LEN];
        assert(bytes@ =~= Seq::new(MAX_LEN as nat, |i: int| 0u8));
        CharString { bytes, len: 0 }
    }
}

impl<'a, const MAX_LEN: usize> From<&'a str> for CharString<MAX_LEN> {
    /// Encodes `text` in the standard alphabet, without padding.
    fn from(text: &'a str) -> (s: Self)
        ensures
            s@ == encoded(lowercase(text@), CHARS@, MAX_LEN as nat, false),
            s.array_view() == encoded(lowercase(text@), CHARS@, MAX_LEN as nat, true),
    {
        let s = CharString::new(text, false);
        proof {
            use_type_invariant(&s);
            Self::lemma_same_views_same_value(s, Self::unpadded(lowercase(text@)));
        }
        s
    }
}

impl<'a, const MAX_LEN: usize> vstd::std_specs::convert::FromSpecImpl<&'a str> for CharString<MAX_LEN> {
    open spec fn obeys_from_spec() -> bool {
        true
    }

    open spec fn from_spec(text: &'a str) -> Self {
        Self::unpadded(lowercase(text@))
    }
}

/// The bytes that text is stored as in EEPROM: its codes in the EEPROM
/// alphabet, at most 31, then the terminator, six bits apiece.
pub open spec fn eeprom_packed(text: Seq<char>) -> Seq<u8> {
    bytes_le(
        packed_value(
            encoded(text, EEPROM_CHARS@, EEPROM_MAX_CHARS as nat, false).push(EEPROM_TERMINATOR),
            6,
        ),
    )
}

/// The bytes that a phone number is stored as: its codes in the phone
/// alphabet, at most 12, four bits apiece.
pub open spec fn phone_packed(text: Seq<char>) -> Seq<u8> {
    bytes_le(packed_value(encoded(text, PHONE_CHARS@, PHONE_MAX_CHARS as nat, false), 4))
}

/// Text packed for EEPROM.
#[derive(Debug, Clone, PartialEq, Eq)]
pub struct EepromString {
    bytes: Vec<u8>,
}

impl View for EepromString {
    type V = Seq<u8>;

    /// The packed bytes.
    closed spec fn view(&self) -> Seq<u8> {
        self.bytes@
    }
}

impl EepromString {
    /// Packs `input`: lower-cased, at most 31 characters, terminated.
    pub fn new(input: &str) -> (s: Self)
        ensures
            s@ == eeprom_packed(lowercase(input@)),
    {
        let lower = to_lowercase(input);
        Self::from_lowercase(lower.as_str())
    }

    /// Packs text that is in lower case already.
    pub fn from_lowercase(text: &str) -> (s: Self)
        ensures
            s@ == eeprom_packed(text@),
    {
        let mut codes = encode_chars(text, EEPROM_CHARS, EEPROM_MAX_CHARS, false);
        proof {
            lemma_encoded_shape(text@, EEPROM_CHARS@, EEPROM_MAX_CHARS as nat);
        }
        codes.push(EEPROM_TERMINATOR);
        assert(6 * codes@.len() <= usize::MAX);
        let bytes = pack_codes(codes.as_slice(), 6);
        EepromString { bytes }
    }

    /// The packed bytes.
    pub fn as_bytes(&self) -> (bytes: &[u8])
        ensures
            bytes@ == self@,
    {
        self.bytes.as_slice()
    }
}

/// A phone number packed for EEPROM, together with the codes that were
/// packed.
#[derive(Debug, Clone, PartialEq, Eq)]
pub struct PhoneString {
    bytes: Vec<u8>,
    codes: Vec<u8>,
}

impl View for PhoneString {
    type V = Seq<u8>;

    /// The packed bytes.
    closed spec fn view(&self) -> Seq<u8> {
        self.bytes@
    }
}

impl PhoneString {
    /// The codes of the number's characters, twelve at most.
    pub closed spec fn codes(&self) -> Seq<u8> {
        self.codes@
    }

    /// Packs `input`: lower-cased, at most 12 characters.
    pub fn new(input: &str) -> (s: Self)
        ensures
            s@ == phone_packed(lowercase(input@)),
            s.codes() == encoded(lowercase(input@), PHONE_CHARS@, PHONE_MAX_CHARS as nat, false),
    {
        let lower = to_lowercase(input);
        Self::from_lowercase(lower.as_str())
    }

    /// Packs a number that is in lower case already.
    pub fn from_lowercase(text: &str) -> (s: Self)
        ensures
            s@ == phone_packed(text@),
            s.codes() == encoded(text@, PHONE_CHARS@, PHONE_MAX_CHARS as nat, false),
    {
        let codes = encode_chars(text, PHONE_CHARS, PHONE_MAX_CHARS, false);
        proof {
            lemma_encoded_shape(text@, PHONE_CHARS@, PHONE_MAX_CHARS as nat);
        }
        let bytes = pack_codes(codes.as_slice(), 4);
        PhoneString { bytes, codes }
    }

    /// The packed bytes.
    pub fn as_bytes(&self) -> (bytes: &[u8])
        ensures
            bytes@ == self@,
    {
        self.bytes.as_slice()
    }

    /// The codes of the number's characters.
    pub fn as_codes(&self) -> (codes: &[u8])
        ensures
            codes@ == self.codes(),
    {
        self.codes.as_slice()
    }
}

impl<'a> From<&'a str> for EepromString {
    /// Packs `text` for EEPROM.
    fn from(text: &'a str) -> (s: Self)
        ensures
            s@ == eeprom_packed(lowercase(text@)),
    {
        EepromString::new(text)
    }
}

impl<'a> vstd::std_specs::convert::FromSpecImpl<&'a str> for EepromString {
    /// Two values with the same bytes need not be the same value, so the
    /// conversion is stated over the view alone.
    open spec fn obeys_from_spec() -> bool {
        false
    }

    open spec fn from_spec(text: &'a str) -> Self {
        choose|s: Self| s@ == eeprom_packed(lowercase(text@))
    }
}

impl<'a> From<&'a str> for PhoneString {
    /// Packs the phone number `text`.
    fn from(text: &'a str) -> (s: Self)
        ensures
            s@ == phone_packed(lowercase(text@)),
            s.codes() == encoded(lowercase(text@), PHONE_CHARS@, PHONE_MAX_CHARS as nat, false),
    {
        PhoneString::new(text)
    }
}

impl<'a> vstd::std_specs::convert::FromSpecImpl<&'a str> for PhoneString {
    /// Two values with the same bytes need not be the same value, so the
    /// conversion is stated over the view alone.
    open spec fn obeys_from_spec() -> bool {
        false
    }

    open spec fn from_spec(text: &'a str) -> Self {
        choose|s: Self| s@ == phone_packed(lowercase(text@))
    }
}

/// A code is a place in the alphabet: in an alphabet of up to 256
/// characters it is smaller than the number of characters.
pub proof fn lemma_char_code_in_alphabet(map: Seq<char>, c: char)
    requires
        0 < map.len() <= 256,
    ensures
        char_code(map, c) < map.len(),
{
    if map.contains(c) {
        let p = choose|p: int| 0 <= p < map.len() && map[p] == c;
        let first = choose_first(map, c, p);
        lemma_first_position_unique(map, c, first);
    } else if map.contains(INVALID_CHAR) {
        let p = choose|p: int| 0 <= p < map.len() && map[p] == INVALID_CHAR;
        let first = choose_first(map, INVALID_CHAR, p);
        lemma_first_position_unique(map, INVALID_CHAR, first);
    }
}

/// The first place of a character that stands at place `p`.
proof fn choose_first(map: Seq<char>, c: char, p: int) -> (first: int)
    requires
        0 <= p < map.len(),
        map[p] == c,
    ensures
        is_first_position(map, c, first),
    decreases p,
{
    if exists|j: int| 0 <= j < p && map[j] == c {
        let j = choose|j: int| 0 <= j < p && map[j] == c;
        choose_first(map, c, j)
    } else {
        p
    }
}

/// The EEPROM alphabet has 63 characters, so that its codes and the
/// terminator, which is none of them, fit in six bits.
pub proof fn lemma_eeprom_codes_fit(text: Seq<char>)
    ensures
        EEPROM_CHARS@.len() == 63,
        codes_fit(
            encoded(text, EEPROM_CHARS@, EEPROM_MAX_CHARS as nat, false).push(EEPROM_TERMINATOR),
            6,
        ),
{
    reveal_strlit("0123456789abcdefghijklmnopqrstuvwxyz !\"#$%&'()*+,-./:\\;=@?_|<>[");
    lemma2_to64();
    let codes = encoded(text, EEPROM_CHARS@, EEPROM_MAX_CHARS as nat, false);
    assert forall|i: int| 0 <= i < codes.push(EEPROM_TERMINATOR).len() implies #[trigger] codes.push(
        EEPROM_TERMINATOR,
    )[i] < pow2(6) by {
        if i < codes.len() {
            lemma_char_code_in_alphabet(EEPROM_CHARS@, text[i]);
        }
    }
}

/// Text packed for EEPROM takes 1 to 24 bytes: up to 31 codes and the
/// terminator at six bits apiece are up to 192 bits.
pub proof fn lemma_eeprom_packed_length(text: Seq<char>)
    ensures
        1 <= eeprom_packed(text).len() <= 24,
{
    lemma_eeprom_codes_fit(text);
    lemma_encoded_shape(text, EEPROM_CHARS@, EEPROM_MAX_CHARS as nat);
    let codes = encoded(text, EEPROM_CHARS@, EEPROM_MAX_CHARS as nat, false).push(
        EEPROM_TERMINATOR,
    );
    lemma_packed_length(codes, 6, 24);
}

/// The phone alphabet has 16 characters, so that its codes fit in four
/// bits, and a packed phone number takes 1 to 6 bytes.
pub proof fn lemma_phone_packed_length(text: Seq<char>)
    ensures
        PHONE_CHARS@.len() == 16,
        1 <= phone_packed(text).len() <= 6,
{
    reveal_strlit("0123456789cfhpw ");
    lemma2_to64();
    lemma_encoded_shape(text, PHONE_CHARS@, PHONE_MAX_CHARS as nat);
    let codes = encoded(text, PHONE_CHARS@, PHONE_MAX_CHARS as nat, false);
    assert forall|i: int| 0 <= i < codes.len() implies #[trigger] codes[i] < pow2(4) by {
        lemma_char_code_in_alphabet(PHONE_CHARS@, text[i]);
    }
    lemma_packed_length(codes, 4, 6);
}

/// Packing for EEPROM loses nothing but what the alphabet lacks: two texts
/// that pack to the same bytes have the same codes.
pub proof fn lemma_eeprom_packing_is_injective(first: Seq<char>, second: Seq<char>)
    requires
        eeprom_packed(first) == eeprom_packed(second),
    ensures
        encoded(first, EEPROM_CHARS@, EEPROM_MAX_CHARS as nat, false) == encoded(
            second,
            EEPROM_CHARS@,
            EEPROM_MAX_CHARS as nat,
            false,
        ),
{
    let a = encoded(first, EEPROM_CHARS@, EEPROM_MAX_CHARS as nat, false);
    let b = encoded(second, EEPROM_CHARS@, EEPROM_MAX_CHARS as nat, false);
    lemma_eeprom_codes_fit(first);
    lemma_eeprom_codes_fit(second);
    lemma_packing_is_injective(a.push(EEPROM_TERMINATOR), b.push(EEPROM_TERMINATOR), 6);
    assert(a =~= a.push(EEPROM_TERMINATOR).drop_last());
    assert(b =~= b.push(EEPROM_TERMINATOR).drop_last());
}

/// Packing is a function of the text: two packings of one text agree byte
/// for byte.
pub proof fn lemma_eeprom_packing_deterministic(a: EepromString, b: EepromString, text: Seq<char>)
    requires
        a@ == eeprom_packed(lowercase(text)),
        b@ == eeprom_packed(lowercase(text)),
    ensures
        a@ == b@,
{
}

} // verus!
