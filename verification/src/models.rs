//! The values that requests carry and responses return, with the rules that
//! request values are held to.

use vstd::prelude::*;
use crate::datetime::{instant, parse_utc, utc_datetime};
use crate::numbers::{parse_i32, parsed_i32, push_signed_decimal, signed_decimal};
use crate::text::{
    append_chars, append_str, chars_of, halves, join_range, joined, split_in_two, string_of,
    views_of,
};
use crate::validation::{
    address_is_email, conclude, finding_unless, findings, gate_is_valid, length_in,
    length_within, record_unless, valid_email, valid_gate, FieldError, Finding, Rule,
    ValidationErrors,
};

verus! {

/// A point in time: whole seconds since the Unix epoch and the nanoseconds
/// past them.
#[derive(Debug, Clone, Copy, PartialEq, Eq, Structural)]
pub struct Timestamp {
    pub seconds: i64,
    pub nanos: u32,
}

impl Timestamp {
    /// True when `self` lies before `other`.
    pub open spec fn precedes(self, other: Timestamp) -> bool {
        self.seconds < other.seconds || (self.seconds == other.seconds && self.nanos
            < other.nanos)
    }

    /// Decides whether `self` lies before `other`.
    pub fn is_before(&self, other: &Timestamp) -> (r: bool)
        ensures
            r == self.precedes(*other),
    {
        self.seconds < other.seconds || (self.seconds == other.seconds && self.nanos
            < other.nanos)
    }
}

/// The findings for an optional text held to a length rule: none where the
/// value is absent.
pub open spec fn optional_length_findings(
    value: Option<String>,
    min: nat,
    max: Option<nat>,
    field: Seq<char>,
) -> Seq<Finding> {
    match value {
        Some(v) => finding_unless(length_within(v@, min, max), field, Rule::Length),
        None => Seq::empty(),
    }
}

fn record_optional_length(
    errors: &mut Vec<FieldError>,
    value: &Option<String>,
    min: usize,
    max: usize,
    field: &'static str,
)
    ensures
        findings(final(errors)@) == findings(old(errors)@) + optional_length_findings(
            *value,
            min as nat,
            Some(max as nat),
            field@,
        ),
{
    match value {
        Some(v) => {
            let ok = length_in(v.as_str(), min, Some(max));
            record_unless(errors, ok, field, Rule::Length);
        },
        None => {
            proof {
                assert(findings(errors@) + Seq::<Finding>::empty() == findings(errors@));
            }
        },
    }
}

/// A flight to be created.
#[derive(Debug, Clone)]
pub struct CreateFlight {
    pub flight_number: String,
    pub airline: String,
    pub aircraft: String,
    pub departure_time: Timestamp,
    pub scanned_at: Timestamp,
    pub destination: String,
    pub gate: String,
    pub device_id: Option<String>,
}

impl CreateFlight {
    /// The broken rules: flight number of 3 to 10 characters, airline of 2
    /// to 100, aircraft of 2 to 50, destination of exactly 3, and a gate
    /// that fits `gate_pattern`.
    pub open spec fn violations(&self) -> Seq<Finding> {
        finding_unless(
            length_within(self.flight_number@, 3, Some(10)),
            "flight_number"@,
            Rule::Length,
        ) + finding_unless(length_within(self.airline@, 2, Some(100)), "airline"@, Rule::Length)
            + finding_unless(
            length_within(self.aircraft@, 2, Some(50)),
            "aircraft"@,
            Rule::Length,
        ) + finding_unless(
            length_within(self.destination@, 3, Some(3)),
            "destination"@,
            Rule::Length,
        ) + finding_unless(valid_gate(self.gate@), "gate"@, Rule::Pattern)
    }

    /// Holds the value to its rules.
    pub fn validate(&self) -> (r: Result<(), ValidationErrors>)
        ensures
            r is Ok <==> self.violations().len() == 0,
            r matches Err(e) ==> e@ == self.violations(),
    {
        let mut errors: Vec<FieldError> = Vec::new();
        proof {
            assert(findings(errors@) == Seq::<Finding>::empty());
        }
        let ok = length_in(self.flight_number.as_str(), 3, Some(10));
        record_unless(&mut errors, ok, "flight_number", Rule::Length);
        let ok = length_in(self.airline.as_str(), 2, Some(100));
        record_unless(&mut errors, ok, "airline", Rule::Length);
        let ok = length_in(self.aircraft.as_str(), 2, Some(50));
        record_unless(&mut errors, ok, "aircraft", Rule::Length);
        let ok = length_in(self.destination.as_str(), 3, Some(3));
        record_unless(&mut errors, ok, "destination", Rule::Length);
        let ok = gate_is_valid(self.gate.as_str());
        record_unless(&mut errors, ok, "gate", Rule::Pattern);
        conclude(errors)
    }

    /// True when the departure lies before `now`: such a flight is not
    /// accepted.
    pub fn departs_before(&self, now: &Timestamp) -> (r: bool)
        ensures
            r == self.departure_time.precedes(*now),
    {
        self.departure_time.is_before(now)
    }
}

/// Changes to a flight; absent fields stay as they are.
#[derive(Debug, Clone)]
pub struct UpdateFlight {
    pub airline: Option<String>,
    pub aircraft: Option<String>,
    pub departure_time: Option<Timestamp>,
    pub destination: Option<String>,
    pub gate: Option<String>,
    pub is_active: Option<bool>,
}

impl UpdateFlight {
    /// The broken rules among the fields that are present: airline of 2 to
    /// 100 characters, aircraft of 2 to 50, destination of exactly 3, and a
    /// gate that fits `gate_pattern`.
    pub open spec fn violations(&self) -> Seq<Finding> {
        optional_length_findings(self.airline, 2, Some(100), "airline"@)
            + optional_length_findings(self.aircraft, 2, Some(50), "aircraft"@)
            + optional_length_findings(self.destination, 3, Some(3), "destination"@) + (
        match self.gate {
            Some(g) => finding_unless(valid_gate(g@), "gate"@, Rule::Pattern),
            None => Seq::empty(),
        })
    }

    /// Holds the value to its rules.
    pub fn validate(&self) -> (r: Result<(), ValidationErrors>)
        ensures
            r is Ok <==> self.violations().len() == 0,
            r matches Err(e) ==> e@ == self.violations(),
    {
        let mut errors: Vec<FieldError> = Vec::new();
        proof {
            assert(findings(errors@) == Seq::<Finding>::empty());
        }
        record_optional_length(&mut errors, &self.airline, 2, 100, "airline");
        record_optional_length(&mut errors, &self.aircraft, 2, 50, "aircraft");
        record_optional_length(&mut errors, &self.destination, 3, 3, "destination");
        match &self.gate {
            Some(g) => {
                let ok = gate_is_valid(g.as_str());
                record_unless(&mut errors, ok, "gate", Rule::Pattern);
            },
            None => {
                proof {
                    assert(findings(errors@) + Seq::<Finding>::empty() == findings(errors@));
                }
            },
        }
        conclude(errors)
    }
}

/// One scan as a device reports it.
#[derive(Debug, Clone)]
pub struct ScanDataInput {
    pub barcode_value: String,
    pub barcode_format: String,
    pub device_id: String,
    pub flight_id: i32,
}

impl ScanDataInput {
    /// The broken rules: barcode value, barcode format and device id must
    /// each hold at least one character.
    pub open spec fn violations(&self) -> Seq<Finding> {
        finding_unless(length_within(self.barcode_value@, 1, None), "barcode_value"@, Rule::Length)
            + finding_unless(
            length_within(self.barcode_format@, 1, None),
            "barcode_format"@,
            Rule::Length,
        ) + finding_unless(length_within(self.device_id@, 1, None), "device_id"@, Rule::Length)
    }

    /// Holds the value to its rules.
    pub fn validate(&self) -> (r: Result<(), ValidationErrors>)
        ensures
            r is Ok <==> self.violations().len() == 0,
            r matches Err(e) ==> e@ == self.violations(),
    {
        let mut errors: Vec<FieldError> = Vec::new();
        proof {
            assert(findings(errors@) == Seq::<Finding>::empty());
        }
        let ok = length_in(self.barcode_value.as_str(), 1, None);
        record_unless(&mut errors, ok, "barcode_value", Rule::Length);
        let ok = length_in(self.barcode_format.as_str(), 1, None);
        record_unless(&mut errors, ok, "barcode_format", Rule::Length);
        let ok = length_in(self.device_id.as_str(), 1, None);
        record_unless(&mut errors, ok, "device_id", Rule::Length);
        conclude(errors)
    }
}

/// A barcode to decode.
#[derive(Debug, Clone)]
pub struct DecodeRequest {
    pub barcode_value: String,
    pub scan_data_id: Option<i32>,
}

impl DecodeRequest {
    /// The broken rules: the barcode value must hold at least one character.
    pub open spec fn violations(&self) -> Seq<Finding> {
        finding_unless(length_within(self.barcode_value@, 1, None), "barcode_value"@, Rule::Length)
    }

    /// Holds the value to its rules.
    pub fn validate(&self) -> (r: Result<(), ValidationErrors>)
        ensures
            r is Ok <==> self.violations().len() == 0,
            r matches Err(e) ==> e@ == self.violations(),
    {
        let mut errors: Vec<FieldError> = Vec::new();
        proof {
            assert(findings(errors@) == Seq::<Finding>::empty());
        }
        let ok = length_in(self.barcode_value.as_str(), 1, None);
        record_unless(&mut errors, ok, "barcode_value", Rule::Length);
        conclude(errors)
    }
}

/// A rejected scan to be logged.
#[derive(Debug, Clone)]
pub struct CreateRejectionLog {
    pub barcode_value: String,
    pub barcode_format: String,
    pub reason: String,
    pub expected_date: Option<String>,
    pub actual_date: Option<String>,
    pub flight_number: Option<String>,
    pub airline: Option<String>,
    pub device_id: Option<String>,
}

impl CreateRejectionLog {
    /// The broken rules: barcode value, barcode format and reason must each
    /// hold at least one character.
    pub open spec fn violations(&self) -> Seq<Finding> {
        finding_unless(length_within(self.barcode_value@, 1, None), "barcode_value"@, Rule::Length)
            + finding_unless(
            length_within(self.barcode_format@, 1, None),
            "barcode_format"@,
            Rule::Length,
        ) + finding_unless(length_within(self.reason@, 1, None), "reason"@, Rule::Length)
    }

    /// Holds the value to its rules.
    pub fn validate(&self) -> (r: Result<(), ValidationErrors>)
        ensures
            r is Ok <==> self.violations().len() == 0,
            r matches Err(e) ==> e@ == self.violations(),
    {
        let mut errors: Vec<FieldError> = Vec::new();
        proof {
            assert(findings(errors@) == Seq::<Finding>::empty());
        }
        let ok = length_in(self.barcode_value.as_str(), 1, None);
        record_unless(&mut errors, ok, "barcode_value", Rule::Length);
        let ok = length_in(self.barcode_format.as_str(), 1, None);
        record_unless(&mut errors, ok, "barcode_format", Rule::Length);
        let ok = length_in(self.reason.as_str(), 1, None);
        record_unless(&mut errors, ok, "reason", Rule::Length);
        conclude(errors)
    }
}

/// The credentials of a login.
#[derive(Debug, Clone)]
pub struct LoginRequest {
    pub username: String,
    pub password: String,
    pub device_info: Option<String>,
}

impl LoginRequest {
    /// The broken rules: username of 3 to 50 characters, password of at
    /// least 6.
    pub open spec fn violations(&self) -> Seq<Finding> {
        finding_unless(length_within(self.username@, 3, Some(50)), "username"@, Rule::Length)
            + finding_unless(length_within(self.password@, 6, None), "password"@, Rule::Length)
    }

    /// Holds the value to its rules.
    pub fn validate(&self) -> (r: Result<(), ValidationErrors>)
        ensures
            r is Ok <==> self.violations().len() == 0,
            r matches Err(e) ==> e@ == self.violations(),
    {
        let mut errors: Vec<FieldError> = Vec::new();
        proof {
            assert(findings(errors@) == Seq::<Finding>::empty());
        }
        let ok = length_in(self.username.as_str(), 3, Some(50));
        record_unless(&mut errors, ok, "username", Rule::Length);
        let ok = length_in(self.password.as_str(), 6, None);
        record_unless(&mut errors, ok, "password", Rule::Length);
        conclude(errors)
    }
}

/// A user to be created.
#[derive(Debug, Clone)]
pub struct CreateUserRequest {
    pub username: String,
    pub email: String,
    pub password: String,
    pub full_name: String,
    pub role_id: i32,
}

impl CreateUserRequest {
    /// The broken rules: username of 3 to 50 characters, a valid e-mail
    /// address, password of at least 8 characters, full name of 2 to 255.
    pub open spec fn violations(&self) -> Seq<Finding> {
        finding_unless(length_within(self.username@, 3, Some(50)), "username"@, Rule::Length)
            + finding_unless(valid_email(self.email@), "email"@, Rule::Email) + finding_unless(
            length_within(self.password@, 8, None),
            "password"@,
            Rule::Length,
        ) + finding_unless(length_within(self.full_name@, 2, Some(255)), "full_name"@, Rule::Length)
    }

    /// Holds the value to its rules.
    pub fn validate(&self) -> (r: Result<(), ValidationErrors>)
        ensures
            r is Ok <==> self.violations().len() == 0,
            r matches Err(e) ==> e@ == self.violations(),
            r is Ok ==> self.email@.contains('@'),
    {
        let mut errors: Vec<FieldError> = Vec::new();
        proof {
            assert(findings(errors@) == Seq::<Finding>::empty());
        }
        let ok = length_in(self.username.as_str(), 3, Some(50));
        record_unless(&mut errors, ok, "username", Rule::Length);
        let ok = address_is_email(self.email.as_str());
        record_unless(&mut errors, ok, "email", Rule::Email);
        let ok = length_in(self.password.as_str(), 8, None);
        record_unless(&mut errors, ok, "password", Rule::Length);
        let ok = length_in(self.full_name.as_str(), 2, Some(255));
        record_unless(&mut errors, ok, "full_name", Rule::Length);
        conclude(errors)
    }
}

/// Changes to a user; absent fields stay as they are.
#[derive(Debug, Clone)]
pub struct UpdateUserRequest {
    pub email: Option<String>,
    pub full_name: Option<String>,
    pub role_id: Option<i32>,
    pub is_active: Option<bool>,
}

/// The text of a flag: "true" or "false".
pub open spec fn flag_text(flag: bool) -> Seq<char> {
    if flag {
        "true"@
    } else {
        "false"@
    }
}

fn append_flag(out: &mut Vec<char>, flag: bool)
    ensures
        final(out)@ == old(out)@ + flag_text(flag),
{
    if flag {
        append_str(out, "true");
    } else {
        append_str(out, "false");
    }
}

impl UpdateUserRequest {
    /// The broken rules among the fields that are present: a valid e-mail
    /// address, full name of 2 to 255 characters.
    pub open spec fn violations(&self) -> Seq<Finding> {
        (match self.email {
            Some(e) => finding_unless(valid_email(e@), "email"@, Rule::Email),
            None => Seq::empty(),
        }) + optional_length_findings(self.full_name, 2, Some(255), "full_name"@)
    }

    /// Holds the value to its rules.
    pub fn validate(&self) -> (r: Result<(), ValidationErrors>)
        ensures
            r is Ok <==> self.violations().len() == 0,
            r matches Err(e) ==> e@ == self.violations(),
    {
        let mut errors: Vec<FieldError> = Vec::new();
        proof {
            assert(findings(errors@) == Seq::<Finding>::empty());
        }
        match &self.email {
            Some(e) => {
                let ok = address_is_email(e.as_str());
                record_unless(&mut errors, ok, "email", Rule::Email);
            },
            None => {
                proof {
                    assert(findings(errors@) + Seq::<Finding>::empty() == findings(errors@));
                }
            },
        }
        record_optional_length(&mut errors, &self.full_name, 2, 255, "full_name");
        conclude(errors)
    }

    /// The assignments of an update statement, one for each field that is
    /// present, in the order e-mail, full name, role, active flag. Text
    /// values stand between single quotes as they are.
    pub open spec fn assignments(&self) -> Seq<Seq<char>> {
        (match self.email {
            Some(e) => seq!["email = '"@ + e@ + "'"@],
            None => Seq::empty(),
        }) + (match self.full_name {
            Some(n) => seq!["full_name = '"@ + n@ + "'"@],
            None => Seq::empty(),
        }) + (match self.role_id {
            Some(id) => seq!["role_id = "@ + signed_decimal(id as int)],
            None => Seq::empty(),
        }) + (match self.is_active {
            Some(a) => seq!["is_active = "@ + flag_text(a)],
            None => Seq::empty(),
        })
    }

    /// The statement that applies the changes to the user `user_id`; none
    /// where no field is present.
    pub open spec fn statement(&self, user_id: i32) -> Option<Seq<char>> {
        if self.assignments().len() == 0 {
            None
        } else {
            Some(
                "UPDATE users SET "@ + joined(
                    self.assignments().push("updated_at = NOW()"@),
                    ", "@,
                ) + " WHERE id = "@ + signed_decimal(user_id as int),
            )
        }
    }

    /// Writes the statement that applies the changes to the user `user_id`;
    /// `None` where there is nothing to change.
    pub fn update_statement(&self, user_id: i32) -> (r: Option<String>)
        ensures
            match self.statement(user_id) {
                Some(text) => r matches Some(s) && s@ == text,
                None => r is None,
            },
    {
        let mut parts: Vec<Vec<char>> = Vec::new();
        proof {
            assert(views_of(parts@) == Seq::<Seq<char>>::empty());
        }
        match &self.email {
            Some(e) => {
                let mut part: Vec<char> = Vec::new();
                append_str(&mut part, "email = '");
                append_str(&mut part, e.as_str());
                append_str(&mut part, "'");
                proof {
                    assert(views_of(parts@.push(part)) == views_of(parts@) + seq![part@]);
                }
                parts.push(part);
            },
            None => {},
        }
        match &self.full_name {
            Some(n) => {
                let mut part: Vec<char> = Vec::new();
                append_str(&mut part, "full_name = '");
                append_str(&mut part, n.as_str());
                append_str(&mut part, "'");
                proof {
                    assert(views_of(parts@.push(part)) == views_of(parts@) + seq![part@]);
                }
                parts.push(part);
            },
            None => {},
        }
        match self.role_id {
            Some(id) => {
                let mut part: Vec<char> = Vec::new();
                append_str(&mut part, "role_id = ");
                push_signed_decimal(&mut part, id as i64);
                proof {
                    assert(views_of(parts@.push(part)) == views_of(parts@) + seq![part@]);
                }
                parts.push(part);
            },
            None => {},
        }
        match self.is_active {
            Some(a) => {
                let mut part: Vec<char> = Vec::new();
                append_str(&mut part, "is_active = ");
                append_flag(&mut part, a);
                proof {
                    assert(views_of(parts@.push(part)) == views_of(parts@) + seq![part@]);
                }
                parts.push(part);
            },
            None => {},
        }
        assert(views_of(parts@) == self.assignments());
        if parts.len() == 0 {
            return None;
        }
        let mut last: Vec<char> = Vec::new();
        append_str(&mut last, "updated_at = NOW()");
        proof {
            assert(last@ == "updated_at = NOW()"@);
            assert(views_of(parts@.push(last)) == views_of(parts@).push(last@));
        }
        parts.push(last);
        let sep = chars_of(", ");
        proof {
            assert(views_of(parts@) == self.assignments().push("updated_at = NOW()"@));
            assert(views_of(parts@).subrange(0, parts.len() as int) == views_of(parts@));
        }
        let list = join_range(parts.as_slice(), 0, parts.len(), sep.as_slice());
        let mut out: Vec<char> = Vec::new();
        append_str(&mut out, "UPDATE users SET ");
        append_chars(&mut out, list.as_slice());
        append_str(&mut out, " WHERE id = ");
        push_signed_decimal(&mut out, user_id as i64);
        Some(string_of(out.as_slice()))
    }
}

/// A change of password.
#[derive(Debug, Clone)]
pub struct ChangePasswordRequest {
    pub old_password: String,
    pub new_password: String,
}

impl ChangePasswordRequest {
    /// The broken rules: old password of at least 6 characters, new
    /// password of at least 8.
    pub open spec fn violations(&self) -> Seq<Finding> {
        finding_unless(length_within(self.old_password@, 6, None), "old_password"@, Rule::Length)
            + finding_unless(
            length_within(self.new_password@, 8, None),
            "new_password"@,
            Rule::Length,
        )
    }

    /// Holds the value to its rules.
    pub fn validate(&self) -> (r: Result<(), ValidationErrors>)
        ensures
            r is Ok <==> self.violations().len() == 0,
            r matches Err(e) ==> e@ == self.violations(),
    {
        let mut errors: Vec<FieldError> = Vec::new();
        proof {
            assert(findings(errors@) == Seq::<Finding>::empty());
        }
        let ok = length_in(self.old_password.as_str(), 6, None);
        record_unless(&mut errors, ok, "old_password", Rule::Length);
        let ok = length_in(self.new_password.as_str(), 8, None);
        record_unless(&mut errors, ok, "new_password", Rule::Length);
        conclude(errors)
    }
}

/// The scans of one hour.
#[derive(Debug, Clone)]
pub struct ScansByHour {
    pub hour: String,
    pub count: i64,
}

/// The scans of one device.
#[derive(Debug, Clone)]
pub struct TopDevice {
    pub device_id: String,
    pub scan_count: i64,
}

/// The scan statistics of a flight.
#[derive(Debug, Clone)]
pub struct FlightStatistics {
    pub flight_id: i32,
    pub flight_number: String,
    pub total_scans: i64,
    pub unique_scans: i64,
    pub duplicate_scans: i64,
    pub scans_by_hour: Vec<ScansByHour>,
    pub top_devices: Vec<TopDevice>,
}

impl FlightStatistics {
    /// The statistics for the given counts: the duplicates are the scans
    /// beyond the unique ones.
    pub fn new(
        flight_id: i32,
        flight_number: String,
        total_scans: i64,
        unique_scans: i64,
        scans_by_hour: Vec<ScansByHour>,
        top_devices: Vec<TopDevice>,
    ) -> (r: FlightStatistics)
        requires
            i64::MIN <= total_scans - unique_scans <= i64::MAX,
        ensures
            r.flight_id == flight_id,
            r.flight_number == flight_number,
            r.total_scans == total_scans,
            r.unique_scans == unique_scans,
            r.duplicate_scans == total_scans - unique_scans,
            r.scans_by_hour == scans_by_hour,
            r.top_devices == top_devices,
    {
        FlightStatistics {
            flight_id,
            flight_number,
            total_scans,
            unique_scans,
            duplicate_scans: total_scans - unique_scans,
            scans_by_hour,
            top_devices,
        }
    }
}

/// The statistics of the decoded barcodes of a flight.
#[derive(Debug, Clone)]
pub struct DecodedStatistics {
    pub flight_id: i32,
    pub flight_number: String,
    pub total_decoded: i64,
    pub infant_count: i64,
    pub adult_count: i64,
}

/// The standard form of a response.
#[derive(Debug, Clone)]
pub struct ApiResponse<T> {
    pub status: String,
    pub message: Option<String>,
    pub data: Option<T>,
    pub total: Option<u64>,
}

impl<T> ApiResponse<T> {
    /// A response with the status "success".
    pub fn success(message: Option<String>, data: Option<T>, total: Option<u64>) -> (r: Self)
        ensures
            r.status@ == "success"@,
            r.message == message,
            r.data == data,
            r.total == total,
    {
        ApiResponse { status: "success".to_owned(), message, data, total }
    }
}

/// The filters of a query for scans.
#[derive(Debug, Clone)]
pub struct GetScanDataQuery {
    pub flight_id: Option<i32>,
    pub date_range: Option<String>,
}

impl GetScanDataQuery {
    /// The two ends of the date range, where the range is given and holds
    /// exactly one comma.
    pub open spec fn range_ends(&self) -> Option<(Seq<char>, Seq<char>)> {
        match self.date_range {
            Some(range) => halves(range@, ','),
            None => None,
        }
    }

    /// The two points in time that bound the scans, where the range is
    /// given, holds exactly one comma and both its ends denote points in
    /// time.
    pub open spec fn range_bounds(&self) -> Option<(Timestamp, Timestamp)> {
        match self.range_ends() {
            Some((start, end)) => match (instant(utc_datetime(start)), instant(utc_datetime(end))) {
                (Some(from), Some(to)) => Some((from, to)),
                _ => None,
            },
            None => None,
        }
    }

    /// Reads the bounds of the date range. Where there are none the scans
    /// are not filtered by time.
    pub fn date_range_bounds(&self) -> (r: Option<(Timestamp, Timestamp)>)
        ensures
            r == self.range_bounds(),
    {
        match self.date_range_ends() {
            Some((start, end)) => bounds_of(parse_utc(start.as_str()), parse_utc(end.as_str())),
            None => None,
        }
    }

    /// Splits the date range into its two ends; `None` where no range is
    /// given or it does not hold exactly one comma.
    pub fn date_range_ends(&self) -> (r: Option<(String, String)>)
        ensures
            match self.range_ends() {
                Some((start, end)) => r matches Some(p) && p.0@ == start && p.1@ == end,
                None => r is None,
            },
    {
        match &self.date_range {
            Some(range) => split_in_two(range.as_str(), ','),
            None => None,
        }
    }
}

/// Both bounds, where both are there.
pub fn bounds_of(start: Option<Timestamp>, end: Option<Timestamp>) -> (r: Option<
    (Timestamp, Timestamp),
>)
    ensures
        r == match (start, end) {
            (Some(from), Some(to)) => Some((from, to)),
            _ => None,
        },
{
    match (start, end) {
        (Some(from), Some(to)) => Some((from, to)),
        _ => None,
    }
}

/// The filter of a query for decoded barcodes.
#[derive(Debug, Clone)]
pub struct GetDecodedBarcodesQuery {
    pub flight_id: Option<i32>,
}

/// The filters of a query for rejection logs.
#[derive(Debug, Clone)]
pub struct RejectionLogQuery {
    pub limit: Option<i64>,
    pub offset: Option<i64>,
    pub airline: Option<String>,
    pub reason: Option<String>,
    pub device_id: Option<String>,
}

/// The filters that a query for rejection logs applies.
#[derive(Debug, Clone, Copy, PartialEq, Eq, Structural)]
pub enum RejectionFilter {
    /// By airline, reason and device.
    AirlineReasonDevice,
    /// By airline and reason.
    AirlineReason,
    /// By airline.
    Airline,
    /// None: every log.
    Unfiltered,
}

impl RejectionLogQuery {
    /// The number of logs to return: 100 where none is given.
    pub fn page_limit(&self) -> (r: i64)
        ensures
            r == match self.limit {
                Some(n) => n,
                None => 100i64,
            },
    {
        match self.limit {
            Some(n) => n,
            None => 100,
        }
    }

    /// The number of logs to skip: 0 where none is given.
    pub fn page_offset(&self) -> (r: i64)
        ensures
            r == match self.offset {
                Some(n) => n,
                None => 0i64,
            },
    {
        match self.offset {
            Some(n) => n,
            None => 0,
        }
    }

    /// The filters that apply. Reason and device count only together with
    /// an airline, and the device only together with a reason.
    pub fn filter(&self) -> (r: RejectionFilter)
        ensures
            r == if self.airline is Some && self.reason is Some && self.device_id is Some {
                RejectionFilter::AirlineReasonDevice
            } else if self.airline is Some && self.reason is Some {
                RejectionFilter::AirlineReason
            } else if self.airline is Some {
                RejectionFilter::Airline
            } else {
                RejectionFilter::Unfiltered
            },
    {
        if self.airline.is_some() && self.reason.is_some() && self.device_id.is_some() {
            RejectionFilter::AirlineReasonDevice
        } else if self.airline.is_some() && self.reason.is_some() {
            RejectionFilter::AirlineReason
        } else if self.airline.is_some() {
            RejectionFilter::Airline
        } else {
            RejectionFilter::Unfiltered
        }
    }

    /// The pattern by which the reason is searched: the reason between two
    /// percent signs; none where no reason is given.
    pub fn reason_pattern(&self) -> (r: Option<String>)
        ensures
            match self.reason {
                Some(reason) => r matches Some(p) && p@ == seq!['%'] + reason@ + seq!['%'],
                None => r is None,
            },
    {
        match &self.reason {
            Some(reason) => {
                let mut out: Vec<char> = Vec::new();
                out.push('%');
                append_str(&mut out, reason.as_str());
                out.push('%');
                Some(string_of(out.as_slice()))
            },
            None => None,
        }
    }
}

/// The filters of a query for users.
#[derive(Debug, Clone)]
pub struct ListUsersQuery {
    pub role_id: Option<i32>,
    pub is_active: Option<bool>,
    pub limit: Option<i64>,
    pub offset: Option<i64>,
}

impl ListUsersQuery {
    /// The conditions of the query, one for each filter that is present,
    /// with `prefix` before each column.
    pub open spec fn conditions(&self, prefix: Seq<char>) -> Seq<Seq<char>> {
        (match self.role_id {
            Some(id) => seq![prefix + "role_id = "@ + signed_decimal(id as int)],
            None => Seq::empty(),
        }) + (match self.is_active {
            Some(a) => seq![prefix + "is_active = "@ + flag_text(a)],
            None => Seq::empty(),
        })
    }

    /// The clause that holds the conditions: empty without a condition,
    /// else the word WHERE and the conditions joined by AND.
    pub open spec fn clause(&self, prefix: Seq<char>) -> Seq<char> {
        if self.conditions(prefix).len() == 0 {
            Seq::empty()
        } else {
            "WHERE "@ + joined(self.conditions(prefix), " AND "@)
        }
    }

    /// The number of users to return: 100 where none is given, and never
    /// more than 500.
    pub fn page_limit(&self) -> (r: i64)
        ensures
            r == match self.limit {
                Some(n) => if n <= 500 {
                    n
                } else {
                    500i64
                },
                None => 100i64,
            },
    {
        match self.limit {
            Some(n) => if n <= 500 {
                n
            } else {
                500
            },
            None => 100,
        }
    }

    /// The number of users to skip: 0 where none is given.
    pub fn page_offset(&self) -> (r: i64)
        ensures
            r == match self.offset {
                Some(n) => n,
                None => 0i64,
            },
    {
        match self.offset {
            Some(n) => n,
            None => 0,
        }
    }

    /// Writes the clause that holds the conditions of the query, with
    /// `prefix` before each column.
    pub fn where_clause(&self, prefix: &str) -> (r: String)
        ensures
            r@ == self.clause(prefix@),
    {
        let mut parts: Vec<Vec<char>> = Vec::new();
        proof {
            assert(views_of(parts@) == Seq::<Seq<char>>::empty());
        }
        match self.role_id {
            Some(id) => {
                let mut part: Vec<char> = Vec::new();
                append_str(&mut part, prefix);
                append_str(&mut part, "role_id = ");
                push_signed_decimal(&mut part, id as i64);
                proof {
                    assert(views_of(parts@.push(part)) == views_of(parts@) + seq![part@]);
                }
                parts.push(part);
            },
            None => {},
        }
        match self.is_active {
            Some(a) => {
                let mut part: Vec<char> = Vec::new();
                append_str(&mut part, prefix);
                append_str(&mut part, "is_active = ");
                append_flag(&mut part, a);
                proof {
                    assert(views_of(parts@.push(part)) == views_of(parts@) + seq![part@]);
                }
                parts.push(part);
            },
            None => {},
        }
        assert(views_of(parts@) == self.conditions(prefix@));
        if parts.len() == 0 {
            return String::new();
        }
        let sep = chars_of(" AND ");
        proof {
            assert(views_of(parts@).subrange(0, parts.len() as int) == views_of(parts@));
        }
        let list = join_range(parts.as_slice(), 0, parts.len(), sep.as_slice());
        let mut out: Vec<char> = Vec::new();
        append_str(&mut out, "WHERE ");
        append_chars(&mut out, list.as_slice());
        string_of(out.as_slice())
    }
}

/// The claims of a token.
#[derive(Debug, Clone)]
pub struct Claims {
    /// The user's id.
    pub sub: i32,
    pub username: String,
    pub role: String,
    pub permissions: Vec<String>,
    /// Expiry, in seconds since the Unix epoch.
    pub exp: i64,
    /// Time of issue, in seconds since the Unix epoch.
    pub iat: i64,
}

/// The days that a token is valid for.
pub const TOKEN_EXPIRATION_DAYS: i64 = 7;

/// The seconds of one day.
pub const SECONDS_PER_DAY: i64 = 86_400;

impl Claims {
    /// The claims of a token issued at `now`: it expires seven days later.
    pub fn issue(
        user_id: i32,
        username: String,
        role: String,
        permissions: Vec<String>,
        now: i64,
    ) -> (r: Claims)
        requires
            now + 7 * 86_400 <= i64::MAX,
        ensures
            r.sub == user_id,
            r.username == username,
            r.role == role,
            r.permissions == permissions,
            r.iat == now,
            r.exp == now + 7 * 86_400,
    {
        Claims {
            sub: user_id,
            username,
            role,
            permissions,
            exp: now + TOKEN_EXPIRATION_DAYS * SECONDS_PER_DAY,
            iat: now,
        }
    }
}

/// A value that may stand for an integer: a number or a text.
#[derive(Debug, Clone)]
pub enum LooseInteger {
    /// A number that is an integer of 64 bits.
    Integer(i64),
    /// A number of another kind.
    OtherNumber,
    /// A text.
    Text(String),
    /// Anything else.
    Other,
}

/// The integer that a loose value stands for: a number within the range of
/// `i32`, or a text that reads as one.
pub open spec fn loose_value(value: LooseInteger) -> Option<int> {
    match value {
        LooseInteger::Integer(n) => if i32::MIN <= n <= i32::MAX {
            Some(n as int)
        } else {
            None
        },
        LooseInteger::Text(s) => parsed_i32(s@),
        _ => None,
    }
}

/// The message for a loose value that stands for no integer.
pub open spec fn loose_message(value: LooseInteger) -> Seq<char> {
    match value {
        LooseInteger::Integer(_) => "Invalid i32 number"@,
        LooseInteger::OtherNumber => "Invalid i32 number"@,
        LooseInteger::Text(s) => "Cannot parse '"@ + s@ + "' as i32"@,
        LooseInteger::Other => "Expected number or string for i32"@,
    }
}

/// Reads an `i32` from a number or a text; the error is the message that
/// says what was wrong.
pub fn flexible_i32(value: &LooseInteger) -> (r: Result<i32, String>)
    ensures
        match loose_value(*value) {
            Some(n) => r == Ok::<i32, String>(n as i32),
            None => r matches Err(m) && m@ == loose_message(*value),
        },
{
    match value {
        LooseInteger::Integer(n) => {
            if -0x8000_0000 <= *n && *n <= 0x7fff_ffff {
                Ok(*n as i32)
            } else {
                Err("Invalid i32 number".to_owned())
            }
        },
        LooseInteger::OtherNumber => Err("Invalid i32 number".to_owned()),
        LooseInteger::Text(s) => {
            let chars = chars_of(s.as_str());
            match parse_i32(chars.as_slice()) {
                Some(n) => Ok(n),
                None => {
                    let mut out: Vec<char> = Vec::new();
                    append_str(&mut out, "Cannot parse '");
                    append_chars(&mut out, chars.as_slice());
                    append_str(&mut out, "' as i32");
                    Err(string_of(out.as_slice()))
                },
            }
        },
        LooseInteger::Other => Err("Expected number or string for i32".to_owned()),
    }
}

} // verus!
