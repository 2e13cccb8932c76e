use vstd::prelude::*;

use crate::decimal::{decimal_text, format_decimal};
use crate::ids::{is_blank, text_is_blank};
use crate::units::{finite_bits, is_finite_bits, Binary64, SIGN_MASK};

verus! {

/// What is wrong with a value found invalid by domain validation.
#[derive(Clone, Debug, PartialEq, Eq)]
pub enum DomainValidationIssue {
    Empty,
    Duplicate,
    Chronology,
    InvalidReference,
    InvalidStructure { requirement: String },
    NotFinite,
    NotPositive,
    OutOfRange,
}

/// A domain-validation failure: the path of the offending field and its issue.
#[derive(Clone, Debug, PartialEq, Eq)]
pub struct DomainValidationError {
    pub path: String,
    pub issue: DomainValidationIssue,
}

/// Path of the element at `index` of the sequence field `field`: `field[index]`.
pub open spec fn spec_indexed_path(field: Seq<char>, index: int) -> Seq<char> {
    field + seq!['['] + decimal_text(index) + seq![']']
}

/// Path `prefix.path`, as written by `DomainValidationError::prepend`.
pub open spec fn spec_joined_path(prefix: Seq<char>, path: Seq<char>) -> Seq<char> {
    prefix + seq!['.'] + path
}

pub fn indexed_path(field: &str, index: usize) -> (r: String)
    ensures
        r@ == spec_indexed_path(field@, index as int),
{
    let mut path = field.to_owned();
    path.append("[");
    let digits = format_decimal(index as u64);
    path.append(digits.as_str());
    path.append("]");
    proof {
        reveal_strlit("[");
        reveal_strlit("]");
        assert(path@ =~= spec_indexed_path(field@, index as int));
    }
    path
}

impl DomainValidationError {
    pub fn new(path: &str, issue: DomainValidationIssue) -> (r: Self)
        ensures
            r.path@ == path@,
            r.issue == issue,
    {
        DomainValidationError { path: path.to_owned(), issue }
    }

    /// Places the failing path under the field `prefix`.
    pub fn prepend(self, prefix: &str) -> (r: Self)
        ensures
            r.path@ == spec_joined_path(prefix@, self.path@),
            r.issue == self.issue,
    {
        let mut path = prefix.to_owned();
        path.append(".");
        path.append(self.path.as_str());
        proof {
            reveal_strlit(".");
            assert(path@ =~= spec_joined_path(prefix@, self.path@));
        }
        DomainValidationError { path, issue: self.issue }
    }
}

/// How a validation issue reads after the failing path.
pub open spec fn issue_text(issue: DomainValidationIssue) -> Seq<char> {
    match issue {
        DomainValidationIssue::Empty => "must not be empty"@,
        DomainValidationIssue::Duplicate => "must be unique"@,
        DomainValidationIssue::Chronology => "is out of chronological order"@,
        DomainValidationIssue::InvalidReference => "refers to a missing value"@,
        DomainValidationIssue::InvalidStructure { requirement } => requirement@,
        DomainValidationIssue::NotFinite => "must be finite"@,
        DomainValidationIssue::NotPositive => "must be positive"@,
        DomainValidationIssue::OutOfRange => "is out of range"@,
    }
}

/// A validation failure as the user reads it: `path: issue`.
pub open spec fn validation_message(error: DomainValidationError) -> Seq<char> {
    error.path@ + ": "@ + issue_text(error.issue)
}

impl DomainValidationIssue {
    fn text(&self) -> (r: &str)
        ensures
            r@ == issue_text(*self),
    {
        match self {
            DomainValidationIssue::Empty => "must not be empty",
            DomainValidationIssue::Duplicate => "must be unique",
            DomainValidationIssue::Chronology => "is out of chronological order",
            DomainValidationIssue::InvalidReference => "refers to a missing value",
            DomainValidationIssue::InvalidStructure { requirement } => requirement.as_str(),
            DomainValidationIssue::NotFinite => "must be finite",
            DomainValidationIssue::NotPositive => "must be positive",
            DomainValidationIssue::OutOfRange => "is out of range",
        }
    }
}

impl DomainValidationError {
    /// The failure as the user reads it.
    pub fn to_string(&self) -> (r: String)
        ensures
            r@ == validation_message(*self),
    {
        let mut text = self.path.clone();
        text.append(": ");
        text.append(self.issue.text());
        text
    }
}

/// Refuses a blank text, naming `path`.
pub fn nonempty(value: &str, path: &str) -> (r: Result<(), DomainValidationError>)
    ensures
        r is Ok <==> !is_blank(value@),
        r matches Err(e) ==> e.path@ == path@ && e.issue == DomainValidationIssue::Empty,
{
    if text_is_blank(value) {
        Err(DomainValidationError::new(path, DomainValidationIssue::Empty))
    } else {
        Ok(())
    }
}

/// Encoding of positive infinity; finite non-negative encodings are exactly those below it.
pub const POSITIVE_INFINITY_BITS: u64 = 0x7ff0_0000_0000_0000;

/// A binary64 encoding of a finite value greater than zero: sign clear, not zero, below infinity.
pub open spec fn positive_bits(bits: u64) -> bool {
    0 < bits < POSITIVE_INFINITY_BITS
}

/// A binary64 encoding of a finite value in `[0, limit]`, where `limit_bits` encodes a finite
/// non-negative `limit`: negative zero counts as zero.
pub open spec fn within_zero_to(bits: u64, limit_bits: u64) -> bool {
    bits == SIGN_MASK || bits <= limit_bits
}

pub fn is_positive_bits(bits: u64) -> (r: bool)
    ensures
        r == positive_bits(bits),
{
    0 < bits && bits < POSITIVE_INFINITY_BITS
}

/// Refuses a non-finite value, naming `path`.
pub fn finite(value: Binary64, path: &str) -> (r: Result<(), DomainValidationError>)
    ensures
        r is Ok <==> finite_bits(value.bits),
        r matches Err(e) ==> e.path@ == path@ && e.issue == DomainValidationIssue::NotFinite,
{
    if is_finite_bits(value.bits) {
        Ok(())
    } else {
        Err(DomainValidationError::new(path, DomainValidationIssue::NotFinite))
    }
}

/// Refuses a value that is not finite and greater than zero, naming `path`.
pub fn positive(value: Binary64, path: &str) -> (r: Result<(), DomainValidationError>)
    ensures
        r is Ok <==> positive_bits(value.bits),
        r matches Err(e) ==> e.path@ == path@ && e.issue == DomainValidationIssue::NotPositive,
{
    if is_positive_bits(value.bits) {
        Ok(())
    } else {
        Err(DomainValidationError::new(path, DomainValidationIssue::NotPositive))
    }
}

/// Refuses a finite value outside `[0, limit]`, naming `path`; `limit_bits` encodes the finite
/// non-negative limit.
pub fn in_range_from_zero(value: Binary64, limit_bits: u64, path: &str) -> (r: Result<
    (),
    DomainValidationError,
>)
    ensures
        r is Ok <==> within_zero_to(value.bits, limit_bits),
        r matches Err(e) ==> e.path@ == path@ && e.issue == DomainValidationIssue::OutOfRange,
{
    if value.bits == SIGN_MASK || value.bits <= limit_bits {
        Ok(())
    } else {
        Err(DomainValidationError::new(path, DomainValidationIssue::OutOfRange))
    }
}

/// The structural rules of a domain value that its type can check by itself.
pub trait DomainValidate {
    spec fn domain_valid(&self) -> bool;

    fn domain_validate(&self) -> (r: Result<(), DomainValidationError>)
        ensures
            r is Ok <==> self.domain_valid(),
    ;
}

} // verus!
