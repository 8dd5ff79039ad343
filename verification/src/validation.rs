//! Rules that request values are held to, and the findings they give.

use vstd::prelude::*;
use crate::text::chars_of;

verus! {

/// The kind of rule that a value broke.
#[derive(Debug, Clone, Copy, PartialEq, Eq, Structural)]
pub enum Rule {
    /// The number of characters is outside the allowed range.
    Length,
    /// The value does not match the required pattern.
    Pattern,
    /// The value is not an e-mail address.
    Email,
}

/// One broken rule: the field and the kind of rule.
#[derive(Debug, Clone, Copy)]
pub struct FieldError {
    pub field: &'static str,
    pub rule: Rule,
}

/// The broken rules of one value, in the order of its fields.
#[derive(Debug)]
pub struct ValidationErrors {
    pub errors: Vec<FieldError>,
}

/// A broken rule as mathematical values.
pub ghost struct Finding {
    pub field: Seq<char>,
    pub rule: Rule,
}

impl View for FieldError {
    type V = Finding;

    open spec fn view(&self) -> Finding {
        Finding { field: self.field@, rule: self.rule }
    }
}

/// The findings that a list of errors stands for.
pub open spec fn findings(errors: Seq<FieldError>) -> Seq<Finding> {
    Seq::new(errors.len(), |i: int| errors[i]@)
}

impl View for ValidationErrors {
    type V = Seq<Finding>;

    open spec fn view(&self) -> Seq<Finding> {
        findings(self.errors@)
    }
}

/// No finding where the rule holds, one finding where it does not.
pub open spec fn finding_unless(ok: bool, field: Seq<char>, rule: Rule) -> Seq<Finding> {
    if ok {
        Seq::empty()
    } else {
        seq![Finding { field, rule }]
    }
}

/// True when `value` has at least `min` characters and, where there is an
/// upper limit, no more than that.
pub open spec fn length_within(value: Seq<char>, min: nat, max: Option<nat>) -> bool {
    min <= value.len() && (max matches Some(m) ==> value.len() <= m)
}

/// The pattern of a gate: one capital letter followed by one or two digits,
/// or the word TBD.
pub open spec fn gate_pattern() -> Seq<char> {
    "^([A-Z]\\d{1,2}|TBD)$"@
}

/// Whether `text` holds a match of the regular expression `pattern`;
/// `None` where `pattern` is no regular expression. Stands for what
/// `regex::Regex::new` and `regex::Regex::is_match` compute.
pub uninterp spec fn regex_match(pattern: Seq<char>, text: Seq<char>) -> Option<bool>;

/// Whether `address` is an e-mail address by the rules of the HTML5
/// specification. Stands for what `validator::ValidateEmail::validate_email`
/// computes.
pub uninterp spec fn valid_email(address: Seq<char>) -> bool;

/// True when `gate` fits `gate_pattern`.
pub open spec fn valid_gate(gate: Seq<char>) -> bool {
    regex_match(gate_pattern(), gate) == Some(true)
}

/// Compiles `pattern` with `regex::Regex::new` and searches `text` with
/// `regex::Regex::is_match`. The contract names the outcome and claims no
/// more than that it is a function of the two texts.
#[verifier::external_body]
fn pattern_is_match(pattern: &str, text: &str) -> (r: Option<bool>)
    ensures
        r == regex_match(pattern@, text@),
{
    match regex::Regex::new(pattern) {
        Ok(re) => Some(re.is_match(text)),
        Err(_) => None,
    }
}

/// Calls `validator::ValidateEmail::validate_email` on `address`. The
/// contract names the outcome and adds what the implementation shows first:
/// an address that is accepted is not empty and holds an `@`.
#[verifier::external_body]
pub(crate) fn address_is_email(address: &str) -> (r: bool)
    ensures
        r == valid_email(address@),
        r ==> address@.len() > 0 && address@.contains('@'),
{
    validator::ValidateEmail::validate_email(&address)
}

/// Decides whether the number of characters of `value` is within limits.
pub fn length_in(value: &str, min: usize, max: Option<usize>) -> (r: bool)
    ensures
        r == length_within(
            value@,
            min as nat,
            match max {
                Some(m) => Some(m as nat),
                None => None,
            },
        ),
{
    let n = chars_of(value).len();
    match max {
        Some(m) => min <= n && n <= m,
        None => min <= n,
    }
}

/// Decides whether `gate` fits `gate_pattern`.
pub fn gate_is_valid(gate: &str) -> (r: bool)
    ensures
        r == valid_gate(gate@),
{
    match pattern_is_match("^([A-Z]\\d{1,2}|TBD)$", gate) {
        Some(found) => found,
        None => false,
    }
}

/// Records a finding for `field` unless the rule holds.
pub fn record_unless(errors: &mut Vec<FieldError>, ok: bool, field: &'static str, rule: Rule)
    ensures
        findings(final(errors)@) == findings(old(errors)@) + finding_unless(ok, field@, rule),
{
    if !ok {
        let error = FieldError { field, rule };
        proof {
            assert(findings(errors@.push(error)) == findings(errors@) + seq![error@]);
        }
        errors.push(error);
    } else {
        proof {
            assert(findings(errors@) + Seq::<Finding>::empty() == findings(errors@));
        }
    }
}

/// Closes a validation: success where nothing was found, else the findings.
pub fn conclude(errors: Vec<FieldError>) -> (r: Result<(), ValidationErrors>)
    ensures
        r is Ok <==> findings(errors@).len() == 0,
        r matches Err(e) ==> e@ == findings(errors@),
{
    if errors.len() == 0 {
        Ok(())
    } else {
        Err(ValidationErrors { errors })
    }
}

} // verus!
