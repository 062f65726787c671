//! Fixed-point readings: a value is a count of equal parts of a unit, and is
//! shown as a whole number and one decimal digit.

use vstd::prelude::*;

verus! {

/// The whole units in `parts` parts of `1/scale` unit each, rounded toward
/// zero.
pub open spec fn whole_part(parts: int, scale: int) -> int {
    if parts >= 0 {
        parts / scale
    } else {
        -((-parts) / scale)
    }
}

/// The first decimal digit of `parts` parts of `1/scale` unit each; 0 for a
/// negative value.
pub open spec fn first_decimal(parts: int, scale: int) -> int {
    if parts >= 0 {
        (parts * 10 / scale) % 10
    } else {
        0
    }
}

/// A temperature in five-hundredths of a degree Fahrenheit, from hundredths
/// of a degree Celsius: F = C * 9 / 5 + 32, exactly.
pub open spec fn fahrenheit_parts(celsius_hundredths: int) -> int {
    celsius_hundredths * 9 + 16000
}

/// `value` held to the range of a `u8`.
pub open spec fn clamp_u8(value: int) -> int {
    if value < 0 {
        0
    } else if value > 255 {
        255
    } else {
        value
    }
}

/// `value` held to the range of an `i8`.
pub open spec fn clamp_i8(value: int) -> int {
    if value < -128 {
        -128
    } else if value > 127 {
        127
    } else {
        value
    }
}

/// `value` held to the range of a `u16`.
pub open spec fn clamp_u16(value: int) -> int {
    if value < 0 {
        0
    } else if value > 65535 {
        65535
    } else {
        value
    }
}

/// Largest magnitude of a fixed-point value that the helpers below take:
/// well above what a 32-bit input scaled by 9 can reach.
pub(crate) const PARTS_LIMIT: i64 = 0x100_0000_0000;

/// The whole units of a fixed-point value, rounded toward zero.
pub(crate) fn whole(parts: i64, scale: i64) -> (w: i64)
    requires
        scale > 0,
        -PARTS_LIMIT < parts < PARTS_LIMIT,
    ensures
        w == whole_part(parts as int, scale as int),
{
    if parts >= 0 {
        parts / scale
    } else {
        -((-parts) / scale)
    }
}

/// The first decimal digit of a fixed-point value.
pub(crate) fn decimal(parts: i64, scale: i64) -> (d: u8)
    requires
        scale > 0,
        -PARTS_LIMIT < parts < PARTS_LIMIT,
    ensures
        d == first_decimal(parts as int, scale as int),
        d <= 9,
{
    if parts >= 0 {
        ((parts * 10 / scale) % 10) as u8
    } else {
        0
    }
}

/// Saturating conversion to `u8`.
pub(crate) fn saturate_u8(value: i64) -> (v: u8)
    ensures
        v == clamp_u8(value as int),
{
    if value < 0 {
        0
    } else if value > 255 {
        255
    } else {
        value as u8
    }
}

/// Saturating conversion to `i8`.
pub(crate) fn saturate_i8(value: i64) -> (v: i8)
    ensures
        v == clamp_i8(value as int),
{
    if value < -128 {
        -128
    } else if value > 127 {
        127
    } else {
        value as i8
    }
}

/// Saturating conversion to `u16`.
pub(crate) fn saturate_u16(value: i64) -> (v: u16)
    ensures
        v == clamp_u16(value as int),
{
    if value < 0 {
        0
    } else if value > 65535 {
        65535
    } else {
        value as u16
    }
}

} // verus!
