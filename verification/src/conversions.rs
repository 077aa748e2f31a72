//! Row-major conversions between 1-d buffer indices and 2-d pixel
//! coordinates.

use vstd::prelude::*;

verus! {

/// Converts a 1-d index into the `(x, y)` pair it addresses in a row-major
/// grid whose rows are `row_size` cells wide.
pub fn index_1d_to_2d(i: usize, row_size: usize) -> (r: (usize, usize))
    requires
        row_size > 0,
    ensures
        r.0 == i % row_size,
        r.1 == i / row_size,
{
    let x = i % row_size;
    let y = i / row_size;

    (x, y)
}

/// A cell inside a `w` by `h` grid has its row-major index inside the
/// buffer of `w * h` cells.
pub proof fn lemma_grid_index_bound(x: int, y: int, w: int, h: int)
    requires
        0 <= x < w,
        0 <= y < h,
    ensures
        0 <= x + w * y,
        x + w * y < w * h,
{
    vstd::arithmetic::mul::lemma_mul_inequality(y + 1, h, w);
    vstd::arithmetic::mul::lemma_mul_is_distributive_add(w, y, 1);
    vstd::arithmetic::mul::lemma_mul_is_commutative(y + 1, w);
    vstd::arithmetic::mul::lemma_mul_is_commutative(w, h);
    vstd::arithmetic::mul::lemma_mul_nonnegative(w, y);
}

/// Converts an `(x, y)` pair into the 1-d index of that cell in a row-major
/// grid whose rows are `row_size` cells wide.
pub fn index_2d_to_1d(x: usize, y: usize, row_size: usize) -> (i: usize)
    requires
        x + row_size * y <= usize::MAX,
    ensures
        i == x + row_size * y,
{
    x + row_size * y
}

} // verus!
