//! Aligned copy planning: the padded-row layout that a device copy of an
//! image into a linear staging buffer must use. Device copies require every
//! row of the destination buffer to start at a multiple of a fixed alignment,
//! so a row of `unpadded_bytes_per_row` valid bytes is stored in a slot of
//! `padded_bytes_per_row` bytes. Both the copy side and the unpacking side
//! derive their layout from `PaddedLayout::new`, so the two can never
//! disagree.

use vstd::prelude::*;

verus! {

/// Row alignment, in bytes, that the copy target imposes on a
/// texture-to-buffer copy.
pub const COPY_BYTES_PER_ROW_ALIGNMENT: u32 = 256;

/// Bytes per pixel of the RGBA render-target format.
pub const PIXEL_BYTES: u32 = 4;

/// `a` is a positive power of two.
pub open spec fn is_power_of_two(a: int) -> bool
    decreases a,
{
    if a <= 0 {
        false
    } else if a == 1 {
        true
    } else {
        a % 2 == 0 && is_power_of_two(a / 2)
    }
}

/// The smallest multiple of `a` that is at least `u`.
pub open spec fn align_up(u: int, a: int) -> int {
    ((u + a - 1) / a) * a
}

/// Bounds of the aligned row width, for any positive row width and alignment:
/// the padded row holds the unpadded one, is a multiple of the alignment, and
/// wastes less than one alignment unit.
pub proof fn lemma_align_up_bounds(u: int, a: int)
    requires
        0 < u,
        0 < a,
    ensures
        align_up(u, a) >= u,
        align_up(u, a) % a == 0,
        align_up(u, a) < u + a,
{
    let q = (u + a - 1) / a;
    let r = (u + a - 1) % a;
    vstd::arithmetic::div_mod::lemma_fundamental_div_mod(u + a - 1, a);
    assert(u + a - 1 == q * a + r);
    assert((q * a) % a == 0) by {
        vstd::arithmetic::div_mod::lemma_mod_multiples_basic(q, a);
    }
}

/// Every input allowed by `lemma_align_up_bounds` admits a power-of-two
/// alignment; restated over that narrower hypothesis because the device
/// states its alignment constant as a power of two.
pub proof fn lemma_padded_row_bounds(u: int, a: int)
    requires
        0 < u,
        is_power_of_two(a),
    ensures
        align_up(u, a) >= u,
        align_up(u, a) % a == 0,
        align_up(u, a) < u + a,
{
    lemma_align_up_bounds(u, a);
}

/// The padded-row layout of one capture target: how many bytes one logical
/// row holds, how wide the aligned row slot is, and how many rows the image
/// has. Derived once from the target's fixed dimensions.
pub struct PaddedLayout {
    /// Bytes of valid pixel data in one row: width times bytes per pixel.
    pub unpadded_bytes_per_row: usize,
    /// Width of one row slot in the staging buffer: the unpadded width
    /// rounded up to the row alignment.
    pub padded_bytes_per_row: usize,
    /// Number of rows: the image height.
    pub rows: usize,
}

impl PaddedLayout {
    /// Internal consistency: rows are non-empty, the padded row holds the
    /// unpadded one, and the whole staging buffer size fits in `usize`.
    pub open spec fn wf(self) -> bool {
        &&& 0 < self.unpadded_bytes_per_row <= self.padded_bytes_per_row
        &&& 0 < self.rows
        &&& self.padded_bytes_per_row * self.rows <= usize::MAX
    }

    /// Total size of the staging buffer: one padded row slot per image row.
    pub open spec fn spec_total_size(self) -> int {
        self.padded_bytes_per_row * self.rows
    }

    pub fn total_size(&self) -> (n: usize)
        requires
            self.wf(),
        ensures
            n == self.spec_total_size(),
    {
        proof {
            vstd::arithmetic::mul::lemma_mul_ordering(
                self.padded_bytes_per_row as int,
                self.rows as int,
            );
        }
        self.padded_bytes_per_row * self.rows
    }
}

/// Rounds a row byte width up to the device's row alignment.
pub fn align_copy_bytes_per_row(row_bytes: usize, alignment: usize) -> (padded: usize)
    requires
        0 < row_bytes,
        0 < alignment,
        row_bytes + alignment <= usize::MAX + 1,
    ensures
        padded == align_up(row_bytes as int, alignment as int),
        padded >= row_bytes,
        padded % alignment == 0,
        padded < row_bytes + alignment,
{
    proof {
        lemma_align_up_bounds(row_bytes as int, alignment as int);
    }
    let q = (row_bytes - 1) / alignment + 1;
    assert(q == (row_bytes + alignment - 1) as int / alignment as int) by (nonlinear_arith)
        requires
            0 < row_bytes,
            0 < alignment,
            q == (row_bytes - 1) as int / alignment as int + 1,
    ;
    q * alignment
}

} // verus!
