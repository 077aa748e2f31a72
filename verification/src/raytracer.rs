//! The integer half of the ray tracer: the neighbor-averaging post-filter
//! over the framebuffer and the adaptive-resolution controller. The
//! floating-point sampling that fills the framebuffer lives in the
//! surrounding binary.

use vstd::prelude::*;

use crate::conversions::{index_2d_to_1d, lemma_grid_index_bound};
use crate::render::{cell_count, is_framebuffer, Color, Command, Size};
use crate::timing::Duration;

verus! {

/// The finest resolution divisor the adaptive controller will reach.
pub const MIN_RENDER_SCALAR: u32 = 12;

/// The coarsest resolution divisor the adaptive controller will reach.
pub const MAX_RENDER_SCALAR: u32 = 120;

/// The divisor chosen for the next frame: one step coarser when the
/// observed frame took longer than the target, one step finer when it was
/// faster, unchanged when it was exactly on target, never stepping past
/// either bound.
pub open spec fn next_scalar(observed_nanos: u64, target_nanos: u64, current: u32) -> int {
    if observed_nanos > target_nanos {
        if current < MAX_RENDER_SCALAR {
            current + 1
        } else {
            current as int
        }
    } else if observed_nanos < target_nanos {
        if current > MIN_RENDER_SCALAR {
            current - 1
        } else {
            current as int
        }
    } else {
        current as int
    }
}

/// Decides the resolution divisor for the next frame from the observed
/// duration of the last frame and the target frame budget.
pub fn next_render_scalar(observed: Duration, target: Duration, current: u32) -> (r: u32)
    ensures
        r == next_scalar(observed.nanos, target.nanos, current),
{
    if observed.nanos > target.nanos {
        if current < MAX_RENDER_SCALAR {
            current + 1
        } else {
            current
        }
    } else if observed.nanos < target.nanos {
        if current > MIN_RENDER_SCALAR {
            current - 1
        } else {
            current
        }
    } else {
        current
    }
}

/// Adaptive control law: a frame over budget strictly raises the divisor
/// (coarser, faster) unless it already sits at its cap, a frame under
/// budget strictly lowers it (finer, slower) unless it already sits at its
/// floor, and a frame exactly on budget leaves it unchanged; the divisor
/// never leaves its bounds.
pub proof fn lemma_adaptive_scalar(observed_nanos: u64, target_nanos: u64, current: u32)
    requires
        MIN_RENDER_SCALAR <= current <= MAX_RENDER_SCALAR,
    ensures
        observed_nanos > target_nanos && current < MAX_RENDER_SCALAR ==> next_scalar(
            observed_nanos,
            target_nanos,
            current,
        ) > current,
        observed_nanos < target_nanos && current > MIN_RENDER_SCALAR ==> next_scalar(
            observed_nanos,
            target_nanos,
            current,
        ) < current,
        observed_nanos == target_nanos ==> next_scalar(observed_nanos, target_nanos, current)
            == current,
        MIN_RENDER_SCALAR <= next_scalar(observed_nanos, target_nanos, current)
            <= MAX_RENDER_SCALAR,
{
}

/// Collects the grid neighbors of `val` along one axis: `val - 1` when it
/// exists and `val + 1` when it is still under `max`, in that order.
pub open spec fn grid_neighbors(val: usize, max: u32) -> Seq<usize> {
    (if val > 0 {
        seq![(val - 1) as usize]
    } else {
        Seq::<usize>::empty()
    }) + (if val + 1 < max {
        seq![(val + 1) as usize]
    } else {
        Seq::<usize>::empty()
    })
}

/// Appends to `v` the neighbors of `val` along one axis of a grid of `max`
/// cells: the value one below when `val` is not the first cell, then the
/// value one above when it is not the last.
pub fn try_add_from_grid(val: usize, max: u32, v: &mut Vec<usize>)
    requires
        max >= 1,
    ensures
        final(v)@ == old(v)@ + grid_neighbors(val, max),
{
    if val > 0 {
        v.push(val - 1);
    }
    if val < (max as usize) - 1 {
        v.push(val + 1);
    }
    proof {
        assert(v@ =~= old(v)@ + grid_neighbors(val, max));
    }
}

/// One channel of a color: red, green or blue for `ch` 0, 1 or 2.
pub open spec fn channel_of(c: Color, ch: int) -> int {
    if ch == 0 {
        c.r as int
    } else if ch == 1 {
        c.g as int
    } else {
        c.b as int
    }
}

/// How many of the four axis-aligned neighbors of `(x, y)` lie inside the
/// resolution's bounds.
pub open spec fn neighbor_count(size: Size, x: int, y: int) -> int {
    (if x > 0 {
        1int
    } else {
        0int
    }) + (if x + 1 < size.width {
        1int
    } else {
        0int
    }) + (if y > 0 {
        1int
    } else {
        0int
    }) + (if y + 1 < size.height {
        1int
    } else {
        0int
    })
}

/// The sum of one color channel over the axis-aligned neighbors of
/// `(x, y)` that lie inside the resolution's bounds.
pub open spec fn neighbor_sum(cmds: Seq<Command>, size: Size, x: int, y: int, ch: int) -> int {
    (if x > 0 {
        channel_of(cmds[(x - 1) + size.width * y].color, ch)
    } else {
        0int
    }) + (if x + 1 < size.width {
        channel_of(cmds[(x + 1) + size.width * y].color, ch)
    } else {
        0int
    }) + (if y > 0 {
        channel_of(cmds[x + size.width * (y - 1)].color, ch)
    } else {
        0int
    }) + (if y + 1 < size.height {
        channel_of(cmds[x + size.width * (y + 1)].color, ch)
    } else {
        0int
    })
}

/// One filtered channel at `(x, y)`: the weighted average of the cell's own
/// channel, weighted by the primary ray strength, and its in-bounds
/// axis-aligned neighbors, each weighted once, under truncating division.
pub open spec fn filtered_channel(
    cmds: Seq<Command>,
    size: Size,
    strength: u32,
    x: int,
    y: int,
    ch: int,
) -> int {
    (strength * channel_of(cmds[x + size.width * y].color, ch) + neighbor_sum(
        cmds,
        size,
        x,
        y,
        ch,
    )) / (strength + neighbor_count(size, x, y))
}

/// The framebuffer cell at `(x, y)` after the post-filter: position and
/// glyph are kept, each color channel is the weighted neighborhood
/// average, and the result is fully opaque.
pub open spec fn filtered_cell(
    cmds: Seq<Command>,
    size: Size,
    strength: u32,
    x: int,
    y: int,
) -> Command {
    let cell = cmds[x + size.width * y];
    Command {
        c: cell.c,
        x: cell.x,
        y: cell.y,
        color: Color {
            r: filtered_channel(cmds, size, strength, x, y, 0) as u8,
            g: filtered_channel(cmds, size, strength, x, y, 1) as u8,
            b: filtered_channel(cmds, size, strength, x, y, 2) as u8,
            a: 255u8,
        },
    }
}

/// `out` is `orig` with every cell replaced by its filtered value, all
/// filter reads going to `orig` alone.
pub open spec fn filtered_frame(
    orig: Seq<Command>,
    out: Seq<Command>,
    size: Size,
    strength: u32,
) -> bool {
    &&& out.len() == orig.len()
    &&& forall|x: int, y: int|
        0 <= x < size.width && 0 <= y < size.height ==> out[x + size.width * y]
            == #[trigger] filtered_cell(orig, size, strength, x, y)
}

/// Runs the neighbor-averaging post-filter over the framebuffer, or leaves
/// it untouched when disabled. Every filter read sees the frame as it was
/// before the pass started, so a cell's new value never leaks into a
/// neighbor's average.
pub fn apply_post_filter(cmds: &mut Vec<Command>, size: Size, primary_ray_strength: u32, enabled: bool)
    requires
        is_framebuffer(old(cmds)@, size),
        enabled ==> primary_ray_strength >= 1,
    ensures
        is_framebuffer(final(cmds)@, size),
        !enabled ==> final(cmds)@ == old(cmds)@,
        enabled ==> filtered_frame(old(cmds)@, final(cmds)@, size, primary_ray_strength),
{
    if !enabled {
        return ;
    }
    let w = size.width as usize;
    let h = size.height as usize;
    let n = cmds.len();
    let mut out: Vec<Command> = Vec::with_capacity(n);
    let mut y: usize = 0;
    while y < h
        invariant
            cmds@ == old(cmds)@,
            is_framebuffer(cmds@, size),
            cell_count(size) <= usize::MAX,
            primary_ray_strength >= 1,
            w == size.width,
            h == size.height,
            y <= h,
            out@.len() == w * y,
            forall|xx: int, yy: int|
                0 <= xx < w && 0 <= yy < y ==> out@[xx + size.width * yy] == #[trigger] filtered_cell(
                    cmds@,
                    size,
                    primary_ray_strength,
                    xx,
                    yy,
                ),
        decreases h - y,
    {
        let mut x: usize = 0;
        while x < w
            invariant
                cmds@ == old(cmds)@,
                is_framebuffer(cmds@, size),
                cell_count(size) <= usize::MAX,
                primary_ray_strength >= 1,
                w == size.width,
                h == size.height,
                y < h,
                x <= w,
                out@.len() == w * y + x,
                forall|xx: int, yy: int|
                    0 <= xx < w && 0 <= yy < y ==> out@[xx + size.width * yy]
                        == #[trigger] filtered_cell(cmds@, size, primary_ray_strength, xx, yy),
                forall|xx: int|
                    0 <= xx < x ==> out@[xx + size.width * (y as int)] == #[trigger] filtered_cell(
                        cmds@,
                        size,
                        primary_ray_strength,
                        xx,
                        y as int,
                    ),
            decreases w - x,
        {
            proof {
                lemma_grid_index_bound(x as int, y as int, w as int, h as int);
            }
            let i = index_2d_to_1d(x, y, w);
            let cell = cmds[i];
            let strength64 = primary_ray_strength as u64;

            proof {
                vstd::arithmetic::mul::lemma_mul_upper_bound(
                    strength64 as int,
                    u32::MAX as int,
                    cell.color.r as int,
                    255,
                );
                vstd::arithmetic::mul::lemma_mul_upper_bound(
                    strength64 as int,
                    u32::MAX as int,
                    cell.color.g as int,
                    255,
                );
                vstd::arithmetic::mul::lemma_mul_upper_bound(
                    strength64 as int,
                    u32::MAX as int,
                    cell.color.b as int,
                    255,
                );
            }
            let mut rsum: u64 = strength64 * (cell.color.r as u64);
            let mut gsum: u64 = strength64 * (cell.color.g as u64);
            let mut bsum: u64 = strength64 * (cell.color.b as u64);
            let mut count: u64 = strength64;

            if x > 0 {
                proof {
                    lemma_grid_index_bound(x - 1, y as int, w as int, h as int);
                }
                let j = index_2d_to_1d(x - 1, y, w);
                let c = cmds[j].color;
                rsum = rsum + (c.r as u64);
                gsum = gsum + (c.g as u64);
                bsum = bsum + (c.b as u64);
                count = count + 1;
            }
            if x + 1 < w {
                proof {
                    lemma_grid_index_bound(x + 1, y as int, w as int, h as int);
                }
                let j = index_2d_to_1d(x + 1, y, w);
                let c = cmds[j].color;
                rsum = rsum + (c.r as u64);
                gsum = gsum + (c.g as u64);
                bsum = bsum + (c.b as u64);
                count = count + 1;
            }
            if y > 0 {
                proof {
                    lemma_grid_index_bound(x as int, y - 1, w as int, h as int);
                }
                let j = index_2d_to_1d(x, y - 1, w);
                let c = cmds[j].color;
                rsum = rsum + (c.r as u64);
                gsum = gsum + (c.g as u64);
                bsum = bsum + (c.b as u64);
                count = count + 1;
            }
            if y + 1 < h {
                proof {
                    lemma_grid_index_bound(x as int, y + 1, w as int, h as int);
                }
                let j = index_2d_to_1d(x, y + 1, w);
                let c = cmds[j].color;
                rsum = rsum + (c.r as u64);
                gsum = gsum + (c.g as u64);
                bsum = bsum + (c.b as u64);
                count = count + 1;
            }

            proof {
                lemma_weighted_average_bounds(
                    cmds@,
                    size,
                    primary_ray_strength,
                    x as int,
                    y as int,
                );
                assert(rsum == primary_ray_strength * channel_of(cmds@[x + size.width * y].color, 0)
                    + neighbor_sum(cmds@, size, x as int, y as int, 0));
                assert(gsum == primary_ray_strength * channel_of(cmds@[x + size.width * y].color, 1)
                    + neighbor_sum(cmds@, size, x as int, y as int, 1));
                assert(bsum == primary_ray_strength * channel_of(cmds@[x + size.width * y].color, 2)
                    + neighbor_sum(cmds@, size, x as int, y as int, 2));
                assert(count == primary_ray_strength + neighbor_count(size, x as int, y as int));
            }
            let rr = (rsum / count) as u8;
            let gg = (gsum / count) as u8;
            let bb = (bsum / count) as u8;

            out.push(
                Command { c: cell.c, x: cell.x, y: cell.y, color: Color { r: rr, g: gg, b: bb, a: 255 } },
            );

            proof {
                assert(out@[w * y + x] == filtered_cell(
                    cmds@,
                    size,
                    primary_ray_strength,
                    x as int,
                    y as int,
                ));
                assert forall|xx: int, yy: int| 0 <= xx < w && 0 <= yy < y implies out@[xx
                    + size.width * yy] == #[trigger] filtered_cell(
                    cmds@,
                    size,
                    primary_ray_strength,
                    xx,
                    yy,
                ) by {
                    lemma_grid_index_bound(xx, yy, w as int, y as int);
                }
            }
            x = x + 1;
        }
        proof {
            vstd::arithmetic::mul::lemma_mul_is_distributive_add(w as int, y as int, 1int);
        }
        y = y + 1;
    }
    proof {
        vstd::arithmetic::mul::lemma_mul_is_commutative(w as int, h as int);
    }
    *cmds = out;
}

/// The weighted channel sums at `(x, y)` never exceed 255 times their
/// weight total, so each filtered channel fits a `u8`.
proof fn lemma_weighted_average_bounds(
    cmds: Seq<Command>,
    size: Size,
    strength: u32,
    x: int,
    y: int,
)
    requires
        is_framebuffer(cmds, size),
        strength >= 1,
        0 <= x < size.width,
        0 <= y < size.height,
    ensures
        forall|ch: int|
            0 <= #[trigger] filtered_channel(cmds, size, strength, x, y, ch) <= 255,
{
    assert forall|ch: int| 0 <= #[trigger] filtered_channel(cmds, size, strength, x, y, ch)
        <= 255 by {
        lemma_grid_index_bound(x, y, size.width as int, size.height as int);
        let center = channel_of(cmds[x + size.width * y].color, ch);
        let nsum = neighbor_sum(cmds, size, x, y, ch);
        let ncnt = neighbor_count(size, x, y);
        let total = strength * center + nsum;
        let weight = strength + ncnt;
        assert(0 <= center <= 255);
        vstd::arithmetic::mul::lemma_mul_upper_bound(strength as int, strength as int, center, 255);
        vstd::arithmetic::mul::lemma_mul_nonnegative(strength as int, center);
        assert(nsum <= 255 * ncnt);
        assert(total <= strength * 255 + 255 * ncnt);
        vstd::arithmetic::mul::lemma_mul_is_commutative(strength as int, 255);
        vstd::arithmetic::mul::lemma_mul_is_distributive_add(255, strength as int, ncnt);
        assert(total <= 255 * weight);
        vstd::arithmetic::mul::lemma_mul_is_commutative(255, weight);
        vstd::arithmetic::div_mod::lemma_div_is_ordered(total, 255 * weight, weight);
        vstd::arithmetic::div_mod::lemma_div_multiples_vanish(255, weight);
        vstd::arithmetic::div_mod::lemma_div_pos_is_pos(total, weight);
    }
}

} // verus!
