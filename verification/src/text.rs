//! What this crate assumes of `heapless::String`, the fixed-capacity text
//! buffer that the focused readout is written into.

use vstd::prelude::*;
use vstd::string::StringSliceAdditionalSpecFns;

verus! {

#[verifier::external_type_specification]
#[verifier::external_body]
pub struct ExHeaplessString<const N: usize>(heapless::String<N>);

/// Capacity of a readout buffer, in bytes.
pub const READOUT_CAPACITY: usize = 9;

/// The bytes that a readout buffer holds, in order.
pub uninterp spec fn text_bytes(s: heapless::String<9>) -> Seq<u8>;

/// `heapless::String::new` makes an empty buffer.
#[verifier::external_body]
pub(crate) fn text_new() -> (s: heapless::String<9>)
    ensures
        text_bytes(s) == Seq::<u8>::empty(),
{
    heapless::String::new()
}

/// `heapless::String::push` with a character that encodes as one byte:
/// appends that byte while the buffer has room, and otherwise fails and
/// leaves the buffer as it was.
#[verifier::external_body]
pub(crate) fn text_push(s: &mut heapless::String<9>, c: char) -> (r: Result<(), ()>)
    requires
        (c as u32) < 128,
    ensures
        r is Ok <==> text_bytes(*old(s)).len() < READOUT_CAPACITY,
        r is Ok ==> text_bytes(*final(s)) == text_bytes(*old(s)).push(c as u8),
        r is Err ==> text_bytes(*final(s)) == text_bytes(*old(s)),
{
    s.push(c)
}

/// `heapless::String::push_str`: appends the bytes of `tail` if all of them
/// fit, and otherwise fails and leaves the buffer as it was.
#[verifier::external_body]
pub(crate) fn text_push_str(s: &mut heapless::String<9>, tail: &str) -> (r: Result<(), ()>)
    ensures
        r is Ok <==> text_bytes(*old(s)).len() + tail.spec_bytes().len() <= READOUT_CAPACITY,
        r is Ok ==> text_bytes(*final(s)) == text_bytes(*old(s)) + tail.spec_bytes(),
        r is Err ==> text_bytes(*final(s)) == text_bytes(*old(s)),
{
    s.push_str(tail)
}

} // verus!
