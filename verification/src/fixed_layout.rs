//! Reading of boarding pass text by byte positions alone: every field is
//! the slice at its position, or a stand-in where the text has no such
//! slice.

use vstd::prelude::*;
use vstd::string::StringSliceAdditionalSpecFns;
use vstd::utf8::{decode_utf8, encode_utf8, is_char_boundary};
use crate::numbers::{parse_i32, parsed_i32};
use crate::text::{
    append_chars, chars_of, find, find_char, matches_at, occurs_at, string_of, trim, trimmed,
};

verus! {

/// The text that the bytes `[from, to)` of `s` encode in UTF-8, where the
/// range lies within `s` and both ends fall between characters.
pub open spec fn byte_slice(s: Seq<char>, from: int, to: int) -> Option<Seq<char>> {
    let bytes = encode_utf8(s);
    if 0 <= from <= to <= bytes.len() && is_char_boundary(bytes, from) && is_char_boundary(
        bytes,
        to,
    ) {
        Some(decode_utf8(bytes.subrange(from, to)))
    } else {
        None
    }
}

/// The slice at `[from, to)`, or `stand_in` where there is none.
pub open spec fn slice_or(s: Seq<char>, from: int, to: int, stand_in: Seq<char>) -> Seq<char> {
    match byte_slice(s, from, to) {
        Some(t) => t,
        None => stand_in,
    }
}

/// Takes the bytes `[from, to)` of `s` as text.
pub fn slice_bytes(s: &str, from: usize, to: usize) -> (r: Option<&str>)
    ensures
        match byte_slice(s@, from as int, to as int) {
            Some(t) => r matches Some(x) && x@ == t,
            None => r is None,
        },
{
    if from <= to && to <= s.as_bytes().len() && s.is_char_boundary(from) && s.is_char_boundary(to) {
        let ghost bytes = s.spec_bytes();
        proof {
            vstd::utf8::encode_utf8_valid_utf8(s@);
            vstd::utf8::valid_utf8_split(bytes, to as int);
        }
        let (head, _) = s.split_at(to);
        proof {
            let front = bytes.subrange(0, to as int);
            assert(head.spec_bytes() == front);
            if from == to {
                vstd::utf8::is_char_boundary_start_end_of_seq(front);
            } else if from > 0 {
                vstd::utf8::is_char_boundary_iff_not_is_continuation_byte(bytes, from as int);
                vstd::utf8::is_char_boundary_iff_not_is_continuation_byte(front, from as int);
            }
            assert(is_char_boundary(front, from as int));
        }
        let (_, mid) = head.split_at(from);
        proof {
            assert(mid.spec_bytes() == bytes.subrange(from as int, to as int));
            vstd::utf8::encode_utf8_decode_utf8(mid@);
            assert(encode_utf8(mid@) == bytes.subrange(from as int, to as int));
            assert(byte_slice(s@, from as int, to as int) == Some(mid@));
        }
        Some(mid)
    } else {
        assert(byte_slice(s@, from as int, to as int) is None);
        None
    }
}

/// `s` with every trailing repetition of `suffix` removed.
pub open spec fn without_trailing(s: Seq<char>, suffix: Seq<char>) -> Seq<char>
    decreases s.len(),
{
    if suffix.len() > 0 && occurs_at(s, suffix, s.len() - suffix.len()) {
        without_trailing(s.take(s.len() - suffix.len()), suffix)
    } else {
        s
    }
}

/// The passenger name: the slice `[2, 22)` trimmed and split at its first
/// `/` into family name and given name; trailing " MR" and then trailing
/// " MS" are taken off the given name, which is trimmed and put before the
/// family name. "UNKNOWN UNKNOWN" where there is no such slice or no `/`.
pub open spec fn fixed_passenger_name(s: Seq<char>) -> Seq<char> {
    match byte_slice(s, 2, 22) {
        Some(field) => {
            let name = trimmed(field);
            if name.contains('/') {
                let slash = find_char(name, '/', 0);
                let given = trimmed(
                    without_trailing(without_trailing(name.skip(slash + 1), " MR"@), " MS"@),
                );
                given + seq![' '] + name.take(slash)
            } else {
                "UNKNOWN UNKNOWN"@
            }
        },
        None => "UNKNOWN UNKNOWN"@,
    }
}

/// The flight number: the slice `[39, 44)`, or "0000", trimmed and read as
/// an `i32`; 0 where it is no number.
pub open spec fn fixed_flight_number(s: Seq<char>) -> int {
    match parsed_i32(trimmed(slice_or(s, 39, 44, "0000"@))) {
        Some(n) => n,
        None => 0,
    }
}

/// The fields of a boarding pass read by position.
#[derive(Debug, Clone)]
pub struct FixedLayoutFields {
    pub passenger_name: String,
    pub booking_code: String,
    pub origin: String,
    pub destination: String,
    pub airline_code: String,
    pub flight_number: i32,
    pub flight_date_julian: String,
    pub cabin_class: String,
    pub seat_number: String,
    pub sequence_number: String,
    pub ticket_status: String,
}

impl FixedLayoutFields {
    /// True when the fields are those that the text `s` holds at the fixed
    /// positions.
    pub open spec fn read_from(&self, s: Seq<char>) -> bool {
        &&& self.passenger_name@ == fixed_passenger_name(s)
        &&& self.booking_code@ == trimmed(slice_or(s, 23, 30, "UNKNOWN"@))
        &&& self.origin@ == slice_or(s, 30, 33, "UNK"@)
        &&& self.destination@ == slice_or(s, 33, 36, "UNK"@)
        &&& self.airline_code@ == trimmed(slice_or(s, 36, 39, "UN"@))
        &&& self.flight_number == fixed_flight_number(s)
        &&& self.flight_date_julian@ == slice_or(s, 44, 47, "000"@)
        &&& self.cabin_class@ == slice_or(s, 47, 48, "Y"@)
        &&& self.seat_number@ == trimmed(slice_or(s, 48, 52, "000A"@))
        &&& self.sequence_number@ == trimmed(slice_or(s, 52, 57, "0000"@))
        &&& self.ticket_status@ == slice_or(s, 57, 58, "E"@)
    }
}

/// The slice at `[from, to)` as characters, or those of `stand_in`.
fn field_or(s: &str, from: usize, to: usize, stand_in: &str) -> (r: Vec<char>)
    ensures
        r@ == slice_or(s@, from as int, to as int, stand_in@),
{
    match slice_bytes(s, from, to) {
        Some(t) => chars_of(t),
        None => chars_of(stand_in),
    }
}

/// Length of `s[..len]` after every trailing repetition of `suffix` is
/// removed.
fn strip_trailing(s: &[char], len: usize, suffix: &[char]) -> (r: usize)
    requires
        len <= s.len(),
    ensures
        r <= len,
        s@.take(r as int) == without_trailing(s@.take(len as int), suffix@),
{
    let mut n: usize = len;
    if suffix.len() == 0 {
        return n;
    }
    while n >= suffix.len() && matches_at(&s[0..n], suffix, n - suffix.len())
        invariant
            n <= len <= s.len(),
            suffix.len() > 0,
            without_trailing(s@.take(n as int), suffix@) == without_trailing(
                s@.take(len as int),
                suffix@,
            ),
        decreases n,
    {
        proof {
            assert(s@.subrange(0, n as int) == s@.take(n as int));
            assert(s@.take(n as int).take(n - suffix.len()) == s@.take(n - suffix.len()));
        }
        n = n - suffix.len();
    }
    proof {
        assert(s@.subrange(0, n as int) == s@.take(n as int));
    }
    n
}

/// The passenger name, given names first. "UNKNOWN UNKNOWN" where the text
/// has no name field or the field has no `/`.
pub fn extract_passenger_name(barcode: &str) -> (r: String)
    ensures
        r@ == fixed_passenger_name(barcode@),
{
    match slice_bytes(barcode, 2, 22) {
        Some(field) => {
            let field_chars = chars_of(field);
            let name = trim(field_chars.as_slice());
            let slash = find(name.as_slice(), '/');
            if slash < name.len() {
                proof {
                    assert(name@.contains('/'));
                }
                let rest = &name[slash + 1..name.len()];
                let mr = chars_of(" MR");
                let ms = chars_of(" MS");
                proof {
                    assert(rest@ == name@.skip(slash + 1));
                    assert(rest@.take(rest@.len() as int) == rest@);
                }
                let n = strip_trailing(rest, rest.len(), mr.as_slice());
                let ghost stripped = rest@.take(n as int);
                let m = strip_trailing(rest, n, ms.as_slice());
                let given = trim(&rest[0..m]);
                let mut out: Vec<char> = Vec::new();
                append_chars(&mut out, given.as_slice());
                out.push(' ');
                proof {
                    assert(rest@.subrange(0, m as int) == rest@.take(m as int));
                    assert(name@.subrange(0, slash as int) == name@.take(slash as int));
                }
                append_chars(&mut out, &name[0..slash]);
                string_of(out.as_slice())
            } else {
                "UNKNOWN UNKNOWN".to_owned()
            }
        },
        None => "UNKNOWN UNKNOWN".to_owned(),
    }
}

/// The booking code: the slice `[23, 30)`, or "UNKNOWN", trimmed.
pub fn extract_booking_code(barcode: &str) -> (r: String)
    ensures
        r@ == trimmed(slice_or(barcode@, 23, 30, "UNKNOWN"@)),
{
    let field = field_or(barcode, 23, 30, "UNKNOWN");
    let out = trim(field.as_slice());
    string_of(out.as_slice())
}

/// The origin airport: the slice `[30, 33)`, or "UNK".
pub fn extract_origin(barcode: &str) -> (r: String)
    ensures
        r@ == slice_or(barcode@, 30, 33, "UNK"@),
{
    let field = field_or(barcode, 30, 33, "UNK");
    string_of(field.as_slice())
}

/// The destination airport: the slice `[33, 36)`, or "UNK".
pub fn extract_destination(barcode: &str) -> (r: String)
    ensures
        r@ == slice_or(barcode@, 33, 36, "UNK"@),
{
    let field = field_or(barcode, 33, 36, "UNK");
    string_of(field.as_slice())
}

/// The airline code: the slice `[36, 39)`, or "UN", trimmed.
pub fn extract_airline_code(barcode: &str) -> (r: String)
    ensures
        r@ == trimmed(slice_or(barcode@, 36, 39, "UN"@)),
{
    let field = field_or(barcode, 36, 39, "UN");
    let out = trim(field.as_slice());
    string_of(out.as_slice())
}

/// The flight number: the slice `[39, 44)`, or "0000", trimmed and read as
/// a number; 0 where it is none.
pub fn extract_flight_number(barcode: &str) -> (r: i32)
    ensures
        r == fixed_flight_number(barcode@),
{
    let field = field_or(barcode, 39, 44, "0000");
    let digits = trim(field.as_slice());
    match parse_i32(digits.as_slice()) {
        Some(n) => n,
        None => 0,
    }
}

/// The date of flight: the slice `[44, 47)`, or "000".
pub fn extract_julian_date(barcode: &str) -> (r: String)
    ensures
        r@ == slice_or(barcode@, 44, 47, "000"@),
{
    let field = field_or(barcode, 44, 47, "000");
    string_of(field.as_slice())
}

/// The cabin class: the slice `[47, 48)`, or "Y".
pub fn extract_cabin_class(barcode: &str) -> (r: String)
    ensures
        r@ == slice_or(barcode@, 47, 48, "Y"@),
{
    let field = field_or(barcode, 47, 48, "Y");
    string_of(field.as_slice())
}

/// The seat: the slice `[48, 52)`, or "000A", trimmed.
pub fn extract_seat_number(barcode: &str) -> (r: String)
    ensures
        r@ == trimmed(slice_or(barcode@, 48, 52, "000A"@)),
{
    let field = field_or(barcode, 48, 52, "000A");
    let out = trim(field.as_slice());
    string_of(out.as_slice())
}

/// The sequence number: the slice `[52, 57)`, or "0000", trimmed.
pub fn extract_sequence_number(barcode: &str) -> (r: String)
    ensures
        r@ == trimmed(slice_or(barcode@, 52, 57, "0000"@)),
{
    let field = field_or(barcode, 52, 57, "0000");
    let out = trim(field.as_slice());
    string_of(out.as_slice())
}

/// The ticket status: the slice `[57, 58)`, or "E".
pub fn extract_ticket_status(barcode: &str) -> (r: String)
    ensures
        r@ == slice_or(barcode@, 57, 58, "E"@),
{
    let field = field_or(barcode, 57, 58, "E");
    string_of(field.as_slice())
}

/// Reads every field by position. `None` exactly when the text is shorter
/// than 58 bytes.
pub fn decode_fixed_layout(barcode: &str) -> (r: Option<FixedLayoutFields>)
    ensures
        r is None <==> encode_utf8(barcode@).len() < 58,
        r matches Some(fields) ==> fields.read_from(barcode@),
{
    if barcode.as_bytes().len() < 58 {
        return None;
    }
    Some(
        FixedLayoutFields {
            passenger_name: extract_passenger_name(barcode),
            booking_code: extract_booking_code(barcode),
            origin: extract_origin(barcode),
            destination: extract_destination(barcode),
            airline_code: extract_airline_code(barcode),
            flight_number: extract_flight_number(barcode),
            flight_date_julian: extract_julian_date(barcode),
            cabin_class: extract_cabin_class(barcode),
            seat_number: extract_seat_number(barcode),
            sequence_number: extract_sequence_number(barcode),
            ticket_status: extract_ticket_status(barcode),
        },
    )
}

} // verus!
