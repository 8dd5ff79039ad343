//! Decoding of IATA bar coded boarding pass (BCBP) text.
//!
//! The raw text of a scanned barcode is normalized and then read by two
//! strategies in a fixed order: a token-delimited reading for carriers that
//! pad fields with spaces, and a fixed-width reading for text that keeps the
//! IATA columns. Each executable function states its result as a spec
//! function over `Seq<char>`.

use vstd::prelude::*;
use crate::numbers::{parse_i32, parsed_i32};
use crate::text::{
    append_chars, ascii_upper, char_is_printable_ascii, char_to_ascii_upper, chars_of, contains,
    contains_run, copy_range, find, find_char, is_printable_ascii, join_range, joined,
    lemma_words_from_nonempty, same_chars, split_whitespace, string_of, title_case_chars,
    title_cased, to_upper, trim, trimmed, upper_cased, views_of, words,
};

verus! {

/// One decoded boarding pass.
#[derive(Debug, Clone)]
pub struct PDF417Data {
    pub passenger_name: String,
    pub e_ticket_indicator: String,
    pub booking_code: String,
    pub origin: String,
    pub destination: String,
    pub airline_code: String,
    pub flight_number: String,
    pub flight_date_julian: String,
    pub cabin_class: String,
    pub seat_number: String,
    pub sequence_number: String,
    pub infant_status: bool,
    pub conditional_data: Option<String>,
}

/// The mathematical content of a decoded boarding pass.
pub ghost struct BoardingPassFields {
    pub passenger_name: Seq<char>,
    pub e_ticket_indicator: Seq<char>,
    pub booking_code: Seq<char>,
    pub origin: Seq<char>,
    pub destination: Seq<char>,
    pub airline_code: Seq<char>,
    pub flight_number: Seq<char>,
    pub flight_date_julian: Seq<char>,
    pub cabin_class: Seq<char>,
    pub seat_number: Seq<char>,
    pub sequence_number: Seq<char>,
    pub infant_status: bool,
    pub conditional_data: Option<Seq<char>>,
}

impl BoardingPassFields {
    /// The shape every decoded record has: three-letter airports, a
    /// two-letter airline, one-character indicator and cabin class, a
    /// three-character date, and no seat for an infant.
    pub open spec fn well_formed(self) -> bool {
        &&& self.e_ticket_indicator.len() == 1
        &&& self.origin.len() == 3
        &&& self.destination.len() == 3
        &&& self.airline_code.len() == 2
        &&& self.flight_date_julian.len() == 3
        &&& self.cabin_class.len() == 1
        &&& self.infant_status ==> self.seat_number.len() == 0
    }
}

impl View for PDF417Data {
    type V = BoardingPassFields;

    open spec fn view(&self) -> BoardingPassFields {
        BoardingPassFields {
            passenger_name: self.passenger_name@,
            e_ticket_indicator: self.e_ticket_indicator@,
            booking_code: self.booking_code@,
            origin: self.origin@,
            destination: self.destination@,
            airline_code: self.airline_code@,
            flight_number: self.flight_number@,
            flight_date_julian: self.flight_date_julian@,
            cabin_class: self.cabin_class@,
            seat_number: self.seat_number@,
            sequence_number: self.sequence_number@,
            infant_status: self.infant_status,
            conditional_data: match self.conditional_data {
                Some(s) => Some(s@),
                None => None,
            },
        }
    }
}

/// The content of an optional record.
pub open spec fn fields_of(r: Option<PDF417Data>) -> Option<BoardingPassFields> {
    match r {
        Some(d) => Some(d@),
        None => None,
    }
}

/// The printable ASCII characters of `raw`, in order. Line breaks, tabs,
/// other control characters and everything outside ASCII are dropped;
/// spaces stay.
pub open spec fn normalized(raw: Seq<char>) -> Seq<char> {
    raw.filter(|c: char| is_printable_ascii(c))
}

/// The titles that may close the given-name part of a name field.
pub open spec fn is_known_title(token: Seq<char>) -> bool {
    ||| token == seq!['M', 'R']
    ||| token == seq!['M', 'S']
    ||| token == seq!['M', 'R', 'S']
    ||| token == seq!['M', 'I', 'S', 'S']
    ||| token == seq!['D', 'R']
    ||| token == seq!['P', 'R', 'O', 'F']
}

/// The letters accepted as a detached e-ticket indicator.
pub open spec fn is_indicator_letter(c: char) -> bool {
    c == 'E' || c == 'M' || c == 'Z' || c == 'T' || c == 'B'
}

/// The marker of an infant in the seat field.
pub open spec fn infant_marker() -> Seq<char> {
    seq!['I', 'N', 'F']
}

/// The readable form of a name field `LASTNAME/FIRSTNAME TITLE`.
///
/// Without a `/` the field is title-cased as it stands. Otherwise it is
/// split at the first `/`; when the given-name part has more than one word
/// and its last word is a known title in any letter case, the result is
/// title, given names, family name, else given names, family name; each
/// part is title-cased on its own.
pub open spec fn formatted_name(raw: Seq<char>) -> Seq<char> {
    if !raw.contains('/') {
        title_cased(raw)
    } else {
        let slash = find_char(raw, '/', 0);
        let last_name = trimmed(raw.take(slash));
        let given = trimmed(raw.skip(slash + 1));
        let tokens = words(given);
        if tokens.len() > 1 && is_known_title(upper_cased(tokens.last())) {
            title_cased(upper_cased(tokens.last())) + seq![' '] + title_cased(
                joined(tokens.drop_last(), seq![' ']),
            ) + seq![' '] + title_cased(last_name)
        } else {
            title_cased(given) + seq![' '] + title_cased(last_name)
        }
    }
}

/// The seat to report for a trimmed seat field: none for an infant.
pub open spec fn reported_seat(seat_field: Seq<char>) -> Seq<char> {
    if contains_run(seat_field, infant_marker()) {
        Seq::empty()
    } else {
        seat_field
    }
}

/// The tokens that follow the name field in the token-delimited reading.
pub open spec fn tokens_after_name(chars: Seq<char>) -> Seq<Seq<char>> {
    words(chars.skip(22))
}

/// True when the first token is a detached indicator letter that is to be
/// merged with the token after it: a single character, an indicator letter
/// in either case, with at least four more tokens behind it.
pub open spec fn merges_indicator(tokens: Seq<Seq<char>>) -> bool {
    &&& tokens.len() >= 5
    &&& tokens[0].len() == 1
    &&& is_indicator_letter(ascii_upper(tokens[0][0]))
}

/// The trimmed seat field of the token-delimited reading, before the infant
/// rule is applied. Meaningful where `space_delimited_fields` is `Some`.
pub open spec fn space_delimited_seat_field(chars: Seq<char>) -> Seq<char> {
    let tokens = tokens_after_name(chars);
    let shift: int = if merges_indicator(tokens) { 1 } else { 0 };
    let date = tokens[3 + shift];
    if date.len() >= 8 {
        trimmed(date.subrange(4, 8))
    } else {
        Seq::empty()
    }
}

/// The token-delimited reading of normalized text.
///
/// The name is the fixed slice `[2, 22)`. What follows is split on
/// whitespace into at least four tokens: indicator with booking code, the
/// route (origin, destination, airline), the flight number, and the
/// composite of date, cabin class, seat and sequence number; further tokens
/// are the conditional data.
pub open spec fn space_delimited_fields(chars: Seq<char>) -> Option<BoardingPassFields> {
    if chars.len() <= 22 {
        None
    } else {
        let tokens = tokens_after_name(chars);
        if tokens.len() < 4 {
            None
        } else {
            let shift: int = if merges_indicator(tokens) { 1 } else { 0 };
            let head = if merges_indicator(tokens) { tokens[0] + tokens[1] } else { tokens[0] };
            let route = tokens[1 + shift];
            let date = tokens[3 + shift];
            let seat_field = space_delimited_seat_field(chars);
            if route.len() < 8 || date.len() < 3 {
                None
            } else {
                Some(
                    BoardingPassFields {
                        passenger_name: formatted_name(trimmed(chars.subrange(2, 22))),
                        e_ticket_indicator: seq![head[0]],
                        booking_code: head.skip(1),
                        origin: route.subrange(0, 3),
                        destination: route.subrange(3, 6),
                        airline_code: route.subrange(6, 8),
                        flight_number: tokens[2 + shift],
                        flight_date_julian: date.subrange(0, 3),
                        cabin_class: if date.len() >= 4 { seq![date[3]] } else { seq!['Y'] },
                        seat_number: reported_seat(seat_field),
                        sequence_number: if date.len() >= 12 {
                            trimmed(date.subrange(8, 12))
                        } else {
                            Seq::empty()
                        },
                        infant_status: contains_run(seat_field, infant_marker()),
                        conditional_data: if tokens.len() > 4 + shift {
                            Some(joined(tokens.skip(4 + shift), seq![' ']))
                        } else {
                            None
                        },
                    },
                )
            }
        }
    }
}

/// Number of space characters in `chars`.
pub open spec fn space_count(chars: Seq<char>) -> nat {
    chars.filter(|c: char| c == ' ').len()
}

/// The trimmed seat field of the fixed-width reading, before the infant
/// rule is applied. Meaningful where `strict_iata_fields` is `Some`.
pub open spec fn strict_iata_seat_field(chars: Seq<char>) -> Seq<char> {
    trimmed(chars.subrange(46, 50))
}

/// The fixed-width reading of normalized text: at least 55 characters with
/// at most five spaces among them, every field at its IATA column.
pub open spec fn strict_iata_fields(chars: Seq<char>) -> Option<BoardingPassFields> {
    if chars.len() < 55 || space_count(chars) > 5 {
        None
    } else {
        let seat_field = strict_iata_seat_field(chars);
        Some(
            BoardingPassFields {
                passenger_name: formatted_name(trimmed(chars.subrange(2, 22))),
                e_ticket_indicator: chars.subrange(22, 23),
                booking_code: trimmed(chars.subrange(23, 29)),
                origin: chars.subrange(29, 32),
                destination: chars.subrange(32, 35),
                airline_code: chars.subrange(35, 37),
                flight_number: trimmed(chars.subrange(37, 42)),
                flight_date_julian: chars.subrange(42, 45),
                cabin_class: chars.subrange(45, 46),
                seat_number: reported_seat(seat_field),
                sequence_number: trimmed(chars.subrange(50, 54)),
                infant_status: contains_run(seat_field, infant_marker()),
                conditional_data: if chars.len() > 55 {
                    Some(trimmed(chars.skip(55)))
                } else {
                    None
                },
            },
        )
    }
}

/// True when normalized text has the minimum shape of a boarding pass: at
/// least 50 characters, the first of them `M`.
pub open spec fn has_bcbp_shape(chars: Seq<char>) -> bool {
    chars.len() >= 50 && chars[0] == 'M'
}

/// The record decoded from raw barcode text: the text is normalized, must
/// have the minimum shape, and is read token-delimited first, fixed-width
/// second.
pub open spec fn bcbp_fields(raw: Seq<char>) -> Option<BoardingPassFields> {
    let chars = normalized(raw);
    if !has_bcbp_shape(chars) {
        None
    } else if space_delimited_fields(chars) is Some {
        space_delimited_fields(chars)
    } else {
        strict_iata_fields(chars)
    }
}

/// The trimmed seat field behind the record that `bcbp_fields` gives.
pub open spec fn bcbp_seat_field(raw: Seq<char>) -> Seq<char> {
    let chars = normalized(raw);
    if space_delimited_fields(chars) is Some {
        space_delimited_seat_field(chars)
    } else {
        strict_iata_seat_field(chars)
    }
}

impl PDF417Data {
    /// The flight number as a number: what its text reads as, 0 where it is
    /// no `i32`.
    pub fn flight_number_value(&self) -> (r: i32)
        ensures
            r == match parsed_i32(self.flight_number@) {
                Some(n) => n,
                None => 0,
            },
    {
        let digits = chars_of(self.flight_number.as_str());
        match parse_i32(digits.as_slice()) {
            Some(n) => n,
            None => 0,
        }
    }
}

/// Removes line breaks, tabs, other control characters and everything
/// outside ASCII; spaces are kept where they stand.
pub fn normalize_barcode_data(raw_data: &str) -> (r: String)
    ensures
        r@ == normalized(raw_data@),
        forall|i: int| 0 <= i < r@.len() ==> is_printable_ascii(r@[i]),
{
    let ghost keep = |c: char| is_printable_ascii(c);
    let mut out = String::new();
    for c in it: raw_data.chars()
        invariant
            it.seq() == raw_data@,
            keep == |c: char| is_printable_ascii(c),
            out@ == it.seq().take(it.index() as int).filter(keep),
            forall|i: int| 0 <= i < out@.len() ==> is_printable_ascii(out@[i]),
    {
        proof {
            let before = it.seq().take(it.index() as int);
            let after = it.seq().take(it.index() + 1);
            assert(after.drop_last() == before);
            assert(after.last() == c);
            reveal(Seq::filter);
        }
        if char_is_printable_ascii(c) {
            out.push(c);
        }
    }
    proof {
        assert(raw_data@.take(raw_data@.len() as int) == raw_data@);
    }
    out
}

/// Decides whether `token` is one of the known titles.
fn is_title(token: &[char]) -> (r: bool)
    ensures
        r == is_known_title(token@),
{
    let mr: [char; 2] = ['M', 'R'];
    let ms: [char; 2] = ['M', 'S'];
    let mrs: [char; 3] = ['M', 'R', 'S'];
    let miss: [char; 4] = ['M', 'I', 'S', 'S'];
    let dr: [char; 2] = ['D', 'R'];
    let prof: [char; 4] = ['P', 'R', 'O', 'F'];
    proof {
        assert(mr@ == seq!['M', 'R']);
        assert(ms@ == seq!['M', 'S']);
        assert(mrs@ == seq!['M', 'R', 'S']);
        assert(miss@ == seq!['M', 'I', 'S', 'S']);
        assert(dr@ == seq!['D', 'R']);
        assert(prof@ == seq!['P', 'R', 'O', 'F']);
    }
    same_chars(token, mr.as_slice()) || same_chars(token, ms.as_slice()) || same_chars(
        token,
        mrs.as_slice(),
    ) || same_chars(token, miss.as_slice()) || same_chars(token, dr.as_slice()) || same_chars(
        token,
        prof.as_slice(),
    )
}

/// The readable form of a name field, on character slices.
fn format_name_chars(raw: &[char]) -> (r: Vec<char>)
    ensures
        r@ == formatted_name(raw@),
{
    let slash = find(raw, '/');
    if slash >= raw.len() {
        return title_case_chars(raw);
    }
    let space: [char; 1] = [' '];
    proof {
        assert(space@ == seq![' ']);
        assert(raw@.contains('/'));
    }
    let last_name = trim(&raw[0..slash]);
    let given = trim(&raw[slash + 1..raw.len()]);
    let tokens = split_whitespace(given.as_slice());
    let n = tokens.len();
    let mut out: Vec<char> = Vec::new();
    let mut plain = true;
    if n > 1 {
        let title = to_upper(tokens[n - 1].as_slice());
        if is_title(title.as_slice()) {
            proof {
                assert(views_of(tokens@).last() == tokens@[n - 1]@);
                assert(views_of(tokens@).subrange(0, n - 1) == views_of(tokens@).drop_last());
            }
            let first = join_range(tokens.as_slice(), 0, n - 1, space.as_slice());
            let title_text = title_case_chars(title.as_slice());
            let first_text = title_case_chars(first.as_slice());
            append_chars(&mut out, title_text.as_slice());
            append_chars(&mut out, space.as_slice());
            append_chars(&mut out, first_text.as_slice());
            plain = false;
        }
    }
    if plain {
        let given_text = title_case_chars(given.as_slice());
        append_chars(&mut out, given_text.as_slice());
    }
    let last_text = title_case_chars(last_name.as_slice());
    append_chars(&mut out, space.as_slice());
    append_chars(&mut out, last_text.as_slice());
    out
}

/// Puts each whitespace-separated word in title case: first letter upper
/// case, the rest lower case, single spaces between the words.
pub fn title_case(s: &str) -> (r: String)
    ensures
        r@ == title_cased(s@),
{
    let chars = chars_of(s);
    let out = title_case_chars(chars.as_slice());
    string_of(out.as_slice())
}

/// Turns the name field `LASTNAME/FIRSTNAME TITLE` into readable form:
/// `Title Firstname Lastname`, or `Firstname Lastname` without a title.
pub fn format_passenger_name(raw_name: &str) -> (r: String)
    ensures
        r@ == formatted_name(raw_name@),
        !raw_name@.contains('/') ==> r@ == title_cased(raw_name@),
{
    let chars = chars_of(raw_name);
    let out = format_name_chars(chars.as_slice());
    string_of(out.as_slice())
}

/// The seat to report and the infant flag for a trimmed seat field.
fn seat_and_infant(seat_field: Vec<char>) -> (r: (String, bool))
    ensures
        r.0@ == reported_seat(seat_field@),
        r.1 == contains_run(seat_field@, infant_marker()),
{
    let marker: [char; 3] = ['I', 'N', 'F'];
    proof {
        assert(marker@ == infant_marker());
    }
    let infant = contains(seat_field.as_slice(), marker.as_slice());
    if infant {
        (String::new(), true)
    } else {
        (string_of(seat_field.as_slice()), false)
    }
}

/// Decides whether `c` is an indicator letter, in either case.
fn is_indicator(c: char) -> (r: bool)
    ensures
        r == is_indicator_letter(ascii_upper(c)),
{
    let u = char_to_ascii_upper(c);
    u == 'E' || u == 'M' || u == 'Z' || u == 'T' || u == 'B'
}

/// Token-delimited reading: the name by position, the other fields by
/// whitespace-separated tokens. `None` when the text has no more than the
/// name field, fewer than four tokens behind it, a route token shorter than
/// 8 or a date token shorter than 3.
pub fn try_parse_space_delimited(chars: &[char]) -> (r: Option<PDF417Data>)
    ensures
        fields_of(r) == space_delimited_fields(chars@),
        r matches Some(d) ==> d@.well_formed() && (d.infant_status <==> d.seat_number@.len() == 0
            && contains_run(space_delimited_seat_field(chars@), infant_marker())),
{
    if chars.len() <= 22 {
        return None;
    }
    let name = trim(&chars[2..22]);
    let tokens = split_whitespace(&chars[22..chars.len()]);
    if tokens.len() < 4 {
        return None;
    }
    let ghost toks = tokens_after_name(chars@);
    proof {
        assert(chars@.subrange(22, chars@.len() as int) == chars@.skip(22));
        assert(views_of(tokens@) == toks);
        lemma_words_from_nonempty(chars@.skip(22), 0);
        assert(forall|k: int| 0 <= k < toks.len() ==> toks[k] == (#[trigger] tokens@[k])@);
    }
    let merge = tokens.len() >= 5 && tokens[0].len() == 1 && is_indicator(tokens[0][0]);
    let shift: usize = if merge { 1 } else { 0 };
    let route = &tokens[1 + shift];
    let date = &tokens[3 + shift];
    if route.len() < 8 || date.len() < 3 {
        return None;
    }
    let mut head: Vec<char> = copy_range(tokens[0].as_slice(), 0, tokens[0].len());
    if merge {
        append_chars(&mut head, tokens[1].as_slice());
    }
    proof {
        assert(tokens@[0]@.subrange(0, tokens@[0]@.len() as int) == tokens@[0]@);
    }
    let mut indicator: Vec<char> = Vec::new();
    indicator.push(head[0]);
    let mut cabin: Vec<char> = Vec::new();
    if date.len() >= 4 {
        cabin.push(date[3]);
    } else {
        cabin.push('Y');
    }
    let seat_field: Vec<char> = if date.len() >= 8 {
        trim(&date[4..8])
    } else {
        Vec::new()
    };
    let sequence: Vec<char> = if date.len() >= 12 {
        trim(&date[8..12])
    } else {
        Vec::new()
    };
    let (seat_number, infant_status) = seat_and_infant(seat_field);
    let space: [char; 1] = [' '];
    let conditional_data = if tokens.len() > 4 + shift {
        proof {
            assert(space@ == seq![' ']);
            assert(toks.subrange(4 + shift, toks.len() as int) == toks.skip(4 + shift));
        }
        let rest = join_range(tokens.as_slice(), 4 + shift, tokens.len(), space.as_slice());
        Some(string_of(rest.as_slice()))
    } else {
        None
    };
    let full_name = format_name_chars(name.as_slice());
    let data = PDF417Data {
        passenger_name: string_of(full_name.as_slice()),
        e_ticket_indicator: string_of(indicator.as_slice()),
        booking_code: string_of(&head[1..head.len()]),
        origin: string_of(&route[0..3]),
        destination: string_of(&route[3..6]),
        airline_code: string_of(&route[6..8]),
        flight_number: string_of(tokens[2 + shift].as_slice()),
        flight_date_julian: string_of(&date[0..3]),
        cabin_class: string_of(cabin.as_slice()),
        seat_number,
        sequence_number: string_of(sequence.as_slice()),
        infant_status,
        conditional_data,
    };
    proof {
        assert(data@ == space_delimited_fields(chars@)->0);
    }
    Some(data)
}

/// Number of space characters in `chars`, or 6 as soon as there are more
/// than five.
fn spaces_up_to_six(chars: &[char]) -> (r: usize)
    ensures
        r <= 6,
        r <= 5 ==> r == space_count(chars@),
        r == 6 ==> space_count(chars@) > 5,
{
    let ghost is_space = |c: char| c == ' ';
    let mut count: usize = 0;
    let mut i: usize = 0;
    while i < chars.len() && count <= 5
        invariant
            i <= chars.len(),
            count <= 6,
            is_space == |c: char| c == ' ',
            count == chars@.take(i as int).filter(is_space).len(),
        decreases chars.len() - i,
    {
        proof {
            let after = chars@.take(i + 1);
            assert(after.drop_last() == chars@.take(i as int));
            reveal(Seq::filter);
        }
        if chars[i] == ' ' {
            count = count + 1;
        }
        i = i + 1;
    }
    proof {
        let seen = chars@.take(i as int);
        let rest = chars@.skip(i as int);
        assert(seen + rest == chars@);
        Seq::<char>::filter_distributes_over_add(seen, rest, is_space);
    }
    count
}

/// Fixed-width reading: every field at its IATA column. `None` when the
/// text is shorter than 55 characters or holds more than five spaces.
pub fn try_parse_strict_iata(chars: &[char]) -> (r: Option<PDF417Data>)
    ensures
        fields_of(r) == strict_iata_fields(chars@),
        r matches Some(d) ==> d@.well_formed() && (d.infant_status <==> d.seat_number@.len() == 0
            && contains_run(strict_iata_seat_field(chars@), infant_marker())),
{
    if chars.len() < 55 {
        return None;
    }
    if spaces_up_to_six(chars) > 5 {
        return None;
    }
    let name = trim(&chars[2..22]);
    let full_name = format_name_chars(name.as_slice());
    let booking = trim(&chars[23..29]);
    let flight = trim(&chars[37..42]);
    let seat_field = trim(&chars[46..50]);
    let sequence = trim(&chars[50..54]);
    let (seat_number, infant_status) = seat_and_infant(seat_field);
    let conditional_data = if chars.len() > 55 {
        proof {
            assert(chars@.subrange(55, chars@.len() as int) == chars@.skip(55));
        }
        let rest = trim(&chars[55..chars.len()]);
        Some(string_of(rest.as_slice()))
    } else {
        None
    };
    let data = PDF417Data {
        passenger_name: string_of(full_name.as_slice()),
        e_ticket_indicator: string_of(&chars[22..23]),
        booking_code: string_of(booking.as_slice()),
        origin: string_of(&chars[29..32]),
        destination: string_of(&chars[32..35]),
        airline_code: string_of(&chars[35..37]),
        flight_number: string_of(flight.as_slice()),
        flight_date_julian: string_of(&chars[42..45]),
        cabin_class: string_of(&chars[45..46]),
        seat_number,
        sequence_number: string_of(sequence.as_slice()),
        infant_status,
        conditional_data,
    };
    proof {
        assert(data@ == strict_iata_fields(chars@)->0);
    }
    Some(data)
}

/// Decodes the raw text of a boarding pass barcode.
///
/// The text is normalized; without at least 50 characters, the first of
/// them `M`, there is no match. Otherwise the token-delimited reading is
/// tried first and the fixed-width reading second.
pub fn parse_iata_bcbp(barcode: &str) -> (r: Option<PDF417Data>)
    ensures
        fields_of(r) == bcbp_fields(barcode@),
        normalized(barcode@).len() < 50 ==> r is None,
        normalized(barcode@).len() == 0 || normalized(barcode@)[0] != 'M' ==> r is None,
        r matches Some(d) ==> d@.well_formed() && (d.infant_status <==> d.seat_number@.len() == 0
            && contains_run(bcbp_seat_field(barcode@), infant_marker())),
{
    let text = normalize_barcode_data(barcode);
    let chars = chars_of(text.as_str());
    if chars.len() < 50 || chars[0] != 'M' {
        return None;
    }
    let first = try_parse_space_delimited(chars.as_slice());
    if first.is_some() {
        return first;
    }
    try_parse_strict_iata(chars.as_slice())
}

/// Normalized text holds printable ASCII only, and filtering such text
/// again changes nothing.
proof fn lemma_filter_of_kept(s: Seq<char>)
    requires
        forall|i: int| 0 <= i < s.len() ==> is_printable_ascii(s[i]),
    ensures
        normalized(s) == s,
    decreases s.len(),
{
    reveal(Seq::filter);
    if s.len() > 0 {
        lemma_filter_of_kept(s.drop_last());
        assert(s.drop_last().push(s.last()) == s);
    }
}

/// Normalizing is idempotent: normalized text is its own normal form.
pub proof fn lemma_normalized_idempotent(raw: Seq<char>)
    ensures
        normalized(normalized(raw)) == normalized(raw),
        forall|i: int| 0 <= i < normalized(raw).len() ==> is_printable_ascii(normalized(raw)[i]),
{
    let keep = |c: char| is_printable_ascii(c);
    assert forall|i: int| 0 <= i < normalized(raw).len() implies is_printable_ascii(
        normalized(raw)[i],
    ) by {
        raw.lemma_filter_pred(keep, i);
    }
    lemma_filter_of_kept(normalized(raw));
}

/// Decoding sees the normalized text only: raw text and its normal form
/// decode alike.
pub proof fn lemma_decoding_sees_normalized_text(raw: Seq<char>)
    ensures
        bcbp_fields(normalized(raw)) == bcbp_fields(raw),
{
    lemma_normalized_idempotent(raw);
}

/// Text with fewer than 50 characters after normalization has no match.
pub proof fn lemma_short_text_has_no_match(raw: Seq<char>)
    requires
        normalized(raw).len() < 50,
    ensures
        bcbp_fields(raw) is None,
{
}

/// Text whose first character is not `M` has no match. Left out is text
/// whose first character normalization drops while what remains begins
/// with `M`: there the marker is found after all.
pub proof fn lemma_no_match_without_marker(raw: Seq<char>)
    requires
        raw.len() == 0 || raw[0] != 'M',
        raw.len() == 0 || is_printable_ascii(raw[0]) || normalized(raw).len() == 0 || normalized(
            raw,
        )[0] != 'M',
    ensures
        bcbp_fields(raw) is None,
{
    let keep = |c: char| is_printable_ascii(c);
    if raw.len() == 0 {
        reveal(Seq::filter);
    } else if is_printable_ascii(raw[0]) {
        let head = seq![raw[0]];
        assert(head + raw.drop_first() == raw);
        Seq::<char>::filter_distributes_over_add(head, raw.drop_first(), keep);
        assert(head.filter(keep) == head) by {
            reveal_with_fuel(Seq::filter, 2);
            assert(head.drop_last() == Seq::<char>::empty());
        }
        assert(normalized(raw)[0] == raw[0]);
    }
}

/// In every decoded record the infant flag is set exactly when no seat is
/// reported and the seat field holds `INF`.
pub proof fn lemma_infant_iff_no_seat_and_marker(raw: Seq<char>)
    requires
        bcbp_fields(raw) is Some,
    ensures
        bcbp_fields(raw)->0.infant_status <==> bcbp_fields(raw)->0.seat_number.len() == 0
            && contains_run(bcbp_seat_field(raw), infant_marker()),
{
}

/// Every decoded record is well formed: three-letter airports, two-letter
/// airline, one-character indicator and cabin class, three-character date,
/// and no seat for an infant.
pub proof fn lemma_decoded_record_well_formed(raw: Seq<char>)
    requires
        bcbp_fields(raw) is Some,
    ensures
        bcbp_fields(raw)->0.well_formed(),
{
}

/// A name field without `/` is title-cased and nothing else: no part is
/// moved.
pub proof fn lemma_name_without_slash_is_title_cased(raw: Seq<char>)
    requires
        !raw.contains('/'),
    ensures
        formatted_name(raw) == title_cased(raw),
{
}

} // verus!
