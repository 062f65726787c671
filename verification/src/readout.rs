//! The focused readout: one reading as a short text, " 900 ppm".

use crate::text::{text_bytes, text_new, text_push, text_push_str, READOUT_CAPACITY};
use vstd::prelude::*;
use vstd::string::StringSliceAdditionalSpecFns;

verus! {

/// The decimal digits of `n` in ASCII, most significant first, without
/// leading zeros.
pub open spec fn decimal_digits(n: nat) -> Seq<u8>
    decreases n,
{
    if n < 10 {
        seq![(48 + n) as u8]
    } else {
        decimal_digits(n / 10).push((48 + n % 10) as u8)
    }
}

/// The text of a readout: a space, the value in decimal, a space, the unit.
pub open spec fn readout_bytes(value: nat, units: Seq<u8>) -> Seq<u8> {
    seq![32u8] + decimal_digits(value) + seq![32u8] + units
}

/// The number of digits of `n`, for the sizes a `u16` takes: one digit below
/// 10, two below 100, and so on up to five.
pub proof fn lemma_digits_len(n: nat)
    ensures
        n < 10 ==> decimal_digits(n).len() == 1,
        10 <= n < 100 ==> decimal_digits(n).len() == 2,
        100 <= n < 1000 ==> decimal_digits(n).len() == 3,
        1000 <= n < 10000 ==> decimal_digits(n).len() == 4,
        10000 <= n < 100000 ==> decimal_digits(n).len() == 5,
    decreases n,
{
    if n >= 10 {
        lemma_digits_len(n / 10);
    }
}

/// Appends a one-byte character to a buffer that has room for it.
fn push_ascii(s: &mut heapless::String<9>, c: char)
    requires
        (c as u32) < 128,
        text_bytes(*old(s)).len() < READOUT_CAPACITY,
    ensures
        text_bytes(*final(s)) == text_bytes(*old(s)).push(c as u8),
{
    let pushed = text_push(s, c);
    assert(pushed is Ok);
}

/// Appends the decimal digits of `n` to a buffer that has room for them.
fn push_decimal(s: &mut heapless::String<9>, n: u16)
    requires
        text_bytes(*old(s)).len() + decimal_digits(n as nat).len() <= READOUT_CAPACITY,
    ensures
        text_bytes(*final(s)) == text_bytes(*old(s)) + decimal_digits(n as nat),
    decreases n,
{
    if n >= 10 {
        push_decimal(s, n / 10);
    }
    let digit: u8 = (n % 10) as u8;
    push_ascii(s, (48 + digit) as char);
    assert(text_bytes(*s) =~= text_bytes(*old(s)) + decimal_digits(n as nat));
}

/// Writes the readout of one reading; `None` if it does not fit the buffer.
pub fn focused_text(data: u16, units: &str) -> (text: Option<heapless::String<9>>)
    ensures
        text is Some <==> readout_bytes(data as nat, units.spec_bytes()).len() <= READOUT_CAPACITY,
        text matches Some(s) ==> text_bytes(s) == readout_bytes(data as nat, units.spec_bytes()),
{
    proof {
        lemma_digits_len(data as nat);
    }
    let mut s = text_new();
    push_ascii(&mut s, ' ');
    push_decimal(&mut s, data);
    push_ascii(&mut s, ' ');
    assert(text_bytes(s) =~= seq![32u8] + decimal_digits(data as nat) + seq![32u8]);
    match text_push_str(&mut s, units) {
        Ok(()) => {
            assert(text_bytes(s) =~= readout_bytes(data as nat, units.spec_bytes()));
            Some(s)
        },
        Err(()) => None,
    }
}

} // verus!
