//! What this crate assumes of `microbit_bsp::display::Bitmap`, one row of the
//! LED matrix.

use microbit_bsp::display::Bitmap;
use vstd::prelude::*;

verus! {

#[verifier::external_type_specification]
#[verifier::external_body]
pub struct ExBitmap(Bitmap);

/// The cells of a row, leftmost first: as many as the width the row was made
/// with, `true` where the cell is lit.
pub uninterp spec fn bitmap_bits(b: Bitmap) -> Seq<bool>;

/// `Bitmap::empty` makes a row of `nbits` cells, none of them lit.
pub assume_specification[ Bitmap::empty ](nbits: usize) -> (b: Bitmap)
    ensures
        bitmap_bits(b) == Seq::new(nbits as nat, |i: int| false),
;

/// `Bitmap::set` lights one cell and leaves the others as they were. It
/// panics on a cell beyond the row's width, and its single storage byte holds
/// eight cells.
pub assume_specification[ Bitmap::set ](b: &mut Bitmap, bit: usize)
    requires
        bit < bitmap_bits(*old(b)).len(),
        bit < 8,
    ensures
        bitmap_bits(*final(b)) == bitmap_bits(*old(b)).update(bit as int, true),
;

} // verus!
