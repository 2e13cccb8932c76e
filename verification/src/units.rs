use vstd::prelude::*;

use crate::decimal::{format_signed, signed_text};

verus! {

/// Largest offset from UTC, in seconds, that a fixed offset may take either side of zero.
pub const MAX_OFFSET_SECONDS: i32 = 86_400;

/// A fixed UTC offset in whole seconds, within one day either side of UTC.
#[derive(Clone, Copy, Debug, PartialEq, Eq, Structural)]
pub struct Offset(i32);

/// A binary64 (IEEE 754) quantity, held by its 64-bit encoding. The library moves such values
/// through its model and classifies their encodings; arithmetic on them is done elsewhere.
#[derive(Clone, Copy, Debug, PartialEq, Eq, Structural)]
pub struct Binary64 {
    pub bits: u64,
}

/// Sign bit of a binary64 encoding.
pub const SIGN_MASK: u64 = 0x8000_0000_0000_0000;

/// Encoding of the binary64 value 90.
pub const NINETY_DEGREES_BITS: u64 = 0x4056_8000_0000_0000;

/// Encoding of the binary64 value 180.
pub const ONE_HUNDRED_EIGHTY_DEGREES_BITS: u64 = 0x4066_8000_0000_0000;

/// A binary64 encoding is finite unless its exponent field is all ones (infinities and NaNs).
pub open spec fn finite_bits(bits: u64) -> bool {
    (bits >> 52u64) & 0x7ffu64 != 0x7ffu64
}

/// The encoding with the sign cleared: for finite values it orders magnitudes exactly as the
/// values they encode.
pub open spec fn magnitude_bits(bits: u64) -> u64 {
    bits & !SIGN_MASK
}

/// For a finite encoding, whether the value lies in `[-limit, limit]`, where `limit_bits` encodes
/// a finite non-negative `limit`.
pub open spec fn within_symmetric_bound(bits: u64, limit_bits: u64) -> bool {
    magnitude_bits(bits) <= limit_bits
}

pub fn is_finite_bits(bits: u64) -> (r: bool)
    ensures
        r == finite_bits(bits),
{
    (bits >> 52u64) & 0x7ffu64 != 0x7ffu64
}

/// Errors raised when a unit value is constructed outside its domain.
#[derive(Clone, Copy, Debug, PartialEq, Eq, Structural)]
pub enum UnitError {
    NotFinite,
    OutOfRange { minimum: Binary64, maximum: Binary64, actual: Binary64 },
    OffsetOutOfRange(i32),
}

impl UnitError {
    /// The message of this error where it carries no binary64 value (those are written by the
    /// floating-point `Display`, outside this library): `None` for `OutOfRange`.
    pub fn message(&self) -> (r: Option<String>)
        ensures
            match *self {
                UnitError::NotFinite => r matches Some(m) && m@ == "numeric value must be finite"@,
                UnitError::OffsetOutOfRange(value) => r matches Some(m) && m@ == offset_range_text(value as int),
                UnitError::OutOfRange { .. } => r is None,
            },
    {
        match self {
            UnitError::NotFinite => Some("numeric value must be finite".to_owned()),
            UnitError::OffsetOutOfRange(value) => {
                let mut text = "UTC offset ".to_owned();
                text.append(format_signed(*value).as_str());
                text.append(" seconds is outside the supported range");
                Some(text)
            },
            UnitError::OutOfRange { .. } => None,
        }
    }
}

/// The message for an offset of `seconds` outside the supported range.
pub open spec fn offset_range_text(seconds: int) -> Seq<char> {
    "UTC offset "@ + signed_text(seconds) + " seconds is outside the supported range"@
}

/// A finite angle in degrees.
#[derive(Clone, Copy, Debug, PartialEq, Eq, Structural)]
pub struct Angle {
    bits: u64,
}

impl Angle {
    #[verifier::type_invariant]
    closed spec fn inv(self) -> bool {
        finite_bits(self.bits)
    }

    pub closed spec fn spec_bits(self) -> u64 {
        self.bits
    }

    /// Accepts every finite encoding.
    pub fn from_bits(bits: u64) -> (r: Result<Self, UnitError>)
        ensures
            r is Ok <==> finite_bits(bits),
            r matches Ok(a) ==> a.spec_bits() == bits,
            r matches Err(e) ==> e == UnitError::NotFinite,
    {
        if is_finite_bits(bits) {
            Ok(Angle { bits })
        } else {
            Err(UnitError::NotFinite)
        }
    }

    pub fn to_bits(self) -> (r: u64)
        ensures
            r == self.spec_bits(),
            finite_bits(r),
    {
        proof { use_type_invariant(&self); }
        self.bits
    }
}

/// A finite angular speed in degrees per day.
#[derive(Clone, Copy, Debug, PartialEq, Eq, Structural)]
pub struct AngularVelocity {
    bits: u64,
}

impl AngularVelocity {
    #[verifier::type_invariant]
    closed spec fn inv(self) -> bool {
        finite_bits(self.bits)
    }

    pub closed spec fn spec_bits(self) -> u64 {
        self.bits
    }

    pub fn from_bits(bits: u64) -> (r: Result<Self, UnitError>)
        ensures
            r is Ok <==> finite_bits(bits),
            r matches Ok(a) ==> a.spec_bits() == bits,
            r matches Err(e) ==> e == UnitError::NotFinite,
    {
        if is_finite_bits(bits) {
            Ok(AngularVelocity { bits })
        } else {
            Err(UnitError::NotFinite)
        }
    }

    pub fn to_bits(self) -> (r: u64)
        ensures
            r == self.spec_bits(),
            finite_bits(r),
    {
        proof { use_type_invariant(&self); }
        self.bits
    }
}

/// A geographic latitude in degrees, finite and within `[-90, 90]`.
#[derive(Clone, Copy, Debug, PartialEq, Eq, Structural)]
pub struct Latitude {
    bits: u64,
}

impl Latitude {
    #[verifier::type_invariant]
    closed spec fn inv(self) -> bool {
        finite_bits(self.bits) && within_symmetric_bound(self.bits, NINETY_DEGREES_BITS)
    }

    pub closed spec fn spec_bits(self) -> u64 {
        self.bits
    }

    /// A non-finite value is refused first; a finite one outside `[-90, 90]` is reported with
    /// the bounds.
    pub fn from_bits(bits: u64) -> (r: Result<Self, UnitError>)
        ensures
            r is Ok <==> finite_bits(bits) && within_symmetric_bound(bits, NINETY_DEGREES_BITS),
            r matches Ok(a) ==> a.spec_bits() == bits,
            !finite_bits(bits) ==> r == Err::<Self, UnitError>(UnitError::NotFinite),
            finite_bits(bits) && !within_symmetric_bound(bits, NINETY_DEGREES_BITS) ==> r == Err::<
                Self,
                UnitError,
            >(
                UnitError::OutOfRange {
                    minimum: Binary64 { bits: NINETY_DEGREES_BITS | SIGN_MASK },
                    maximum: Binary64 { bits: NINETY_DEGREES_BITS },
                    actual: Binary64 { bits },
                },
            ),
    {
        if !is_finite_bits(bits) {
            Err(UnitError::NotFinite)
        } else if bits & !SIGN_MASK > NINETY_DEGREES_BITS {
            Err(
                UnitError::OutOfRange {
                    minimum: Binary64 { bits: NINETY_DEGREES_BITS | SIGN_MASK },
                    maximum: Binary64 { bits: NINETY_DEGREES_BITS },
                    actual: Binary64 { bits },
                },
            )
        } else {
            Ok(Latitude { bits })
        }
    }

    pub fn to_bits(self) -> (r: u64)
        ensures
            r == self.spec_bits(),
            finite_bits(r),
            within_symmetric_bound(r, NINETY_DEGREES_BITS),
    {
        proof { use_type_invariant(&self); }
        self.bits
    }
}

/// A geographic longitude in degrees, finite and within `[-180, 180]`.
#[derive(Clone, Copy, Debug, PartialEq, Eq, Structural)]
pub struct Longitude {
    bits: u64,
}

impl Longitude {
    #[verifier::type_invariant]
    closed spec fn inv(self) -> bool {
        finite_bits(self.bits) && within_symmetric_bound(self.bits, ONE_HUNDRED_EIGHTY_DEGREES_BITS)
    }

    pub closed spec fn spec_bits(self) -> u64 {
        self.bits
    }

    /// A non-finite value is refused first; a finite one outside `[-180, 180]` is reported with
    /// the bounds.
    pub fn from_bits(bits: u64) -> (r: Result<Self, UnitError>)
        ensures
            r is Ok <==> finite_bits(bits) && within_symmetric_bound(
                bits,
                ONE_HUNDRED_EIGHTY_DEGREES_BITS,
            ),
            r matches Ok(a) ==> a.spec_bits() == bits,
            !finite_bits(bits) ==> r == Err::<Self, UnitError>(UnitError::NotFinite),
            finite_bits(bits) && !within_symmetric_bound(bits, ONE_HUNDRED_EIGHTY_DEGREES_BITS)
                ==> r == Err::<Self, UnitError>(
                UnitError::OutOfRange {
                    minimum: Binary64 { bits: ONE_HUNDRED_EIGHTY_DEGREES_BITS | SIGN_MASK },
                    maximum: Binary64 { bits: ONE_HUNDRED_EIGHTY_DEGREES_BITS },
                    actual: Binary64 { bits },
                },
            ),
    {
        if !is_finite_bits(bits) {
            Err(UnitError::NotFinite)
        } else if bits & !SIGN_MASK > ONE_HUNDRED_EIGHTY_DEGREES_BITS {
            Err(
                UnitError::OutOfRange {
                    minimum: Binary64 { bits: ONE_HUNDRED_EIGHTY_DEGREES_BITS | SIGN_MASK },
                    maximum: Binary64 { bits: ONE_HUNDRED_EIGHTY_DEGREES_BITS },
                    actual: Binary64 { bits },
                },
            )
        } else {
            Ok(Longitude { bits })
        }
    }

    pub fn to_bits(self) -> (r: u64)
        ensures
            r == self.spec_bits(),
            finite_bits(r),
            within_symmetric_bound(r, ONE_HUNDRED_EIGHTY_DEGREES_BITS),
    {
        proof { use_type_invariant(&self); }
        self.bits
    }
}

impl Offset {
    pub open spec fn valid_seconds(value: int) -> bool {
        -86_400 <= value <= 86_400
    }

    pub closed spec fn spec_seconds(self) -> int {
        self.0 as int
    }

    #[verifier::type_invariant]
    closed spec fn inv(self) -> bool {
        Self::valid_seconds(self.0 as int)
    }

    pub fn utc() -> (r: Offset)
        ensures
            r.spec_seconds() == 0,
    {
        Offset(0)
    }

    pub fn from_seconds(value: i32) -> (r: Result<Offset, UnitError>)
        ensures
            Self::valid_seconds(value as int) <==> r is Ok,
            r matches Ok(o) ==> o.spec_seconds() == value,
            r matches Err(e) ==> e == UnitError::OffsetOutOfRange(value),
    {
        if value < -MAX_OFFSET_SECONDS || value > MAX_OFFSET_SECONDS {
            Err(UnitError::OffsetOutOfRange(value))
        } else {
            Ok(Offset(value))
        }
    }

    pub fn seconds(self) -> (r: i32)
        ensures
            r == self.spec_seconds(),
            Self::valid_seconds(r as int),
    {
        proof { use_type_invariant(&self); }
        self.0
    }
}

} // verus!
