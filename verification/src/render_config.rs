//! The procedurally generated texture.
//!
//! `create_texels` fills a square grid with the escape count of the classic
//! z := z² + c iteration, giving the familiar fractal silhouette.  The pixel
//! grid is spread over the rectangle [-2, 1) × [-1, 1) of the complex plane.
//! All arithmetic runs in fixed point: a whole unit is `FP_ONE` sub-steps,
//! and products are scaled back down with truncation toward zero.

use vstd::arithmetic::div_mod::lemma_div_is_ordered;
use vstd::prelude::*;

verus! {

/// The fixed-point unit: coordinates carry this many sub-steps per whole unit.
pub const FP_ONE: i64 = 65536;

/// A texel saturates at this iteration count.
pub const MAX_ITER: u8 = 255;

/// Division by the fixed-point unit, rounding toward zero.
pub open spec fn fp_scale_down(a: int) -> int {
    if a >= 0 {
        a / (FP_ONE as int)
    } else {
        -((-a) / (FP_ONE as int))
    }
}

/// Squared magnitude at which a point counts as escaped: |z|² >= 4, in
/// squared fixed-point units.
pub open spec fn escape_threshold() -> int {
    4 * (FP_ONE as int) * (FP_ONE as int)
}

/// Real part of the next iterate z² + c, in fixed point.
pub open spec fn step_x(x: int, y: int, cx: int) -> int {
    fp_scale_down(x * x - y * y) + cx
}

/// Imaginary part of the next iterate z² + c, in fixed point.
pub open spec fn step_y(x: int, y: int, cy: int) -> int {
    fp_scale_down(2 * x * y) + cy
}

/// How many iterations z := z² + c runs from (x, y) before the squared
/// magnitude reaches the escape threshold, counting at most `budget` of them.
pub open spec fn escape_count(cx: int, cy: int, x: int, y: int, budget: nat) -> nat
    decreases budget,
{
    if budget == 0 {
        0
    } else if x * x + y * y >= escape_threshold() {
        0
    } else {
        1 + escape_count(cx, cy, step_x(x, y, cx), step_y(x, y, cy), (budget - 1) as nat)
    }
}

/// Real coordinate of a pixel column, spread over [-2, 1) in fixed point.
pub open spec fn pixel_cx(size: int, col: int) -> int {
    3 * col * (FP_ONE as int) / (size - 1) - 2 * (FP_ONE as int)
}

/// Imaginary coordinate of a pixel row, spread over [-1, 1) in fixed point.
pub open spec fn pixel_cy(size: int, row: int) -> int {
    2 * row * (FP_ONE as int) / (size - 1) - (FP_ONE as int)
}

/// The value of texel `id` in a square texture of side `size`, walking the
/// grid row by row.
pub open spec fn texel_value(size: int, id: int) -> nat {
    escape_count(
        pixel_cx(size, id % size),
        pixel_cy(size, id / size),
        pixel_cx(size, id % size),
        pixel_cy(size, id / size),
        MAX_ITER as nat,
    )
}

/// Division by the fixed-point unit on machine words, rounding toward zero.
fn fp_scale_down_exec(a: i64) -> (r: i64)
    requires
        -0x4000_0000_0000_0000 <= a <= 0x4000_0000_0000_0000,
    ensures
        r as int == fp_scale_down(a as int),
{
    if a >= 0 {
        ((a as u64) / (FP_ONE as u64)) as i64
    } else {
        let magnitude: u64 = (-a) as u64;
        -((magnitude / (FP_ONE as u64)) as i64)
    }
}

/// The escape count of one point, run in fixed point with the full budget.
fn point_escape_count(cx: i64, cy: i64) -> (count: u8)
    requires
        -131072 <= cx <= 65536,
        -65536 <= cy <= 65536,
    ensures
        count as nat == escape_count(cx as int, cy as int, cx as int, cy as int, MAX_ITER as nat),
{
    let mut x: i64 = cx;
    let mut y: i64 = cy;
    let mut count: u8 = 0;
    loop
        invariant
            -131072 <= cx <= 65536,
            -65536 <= cy <= 65536,
            -589824 <= x <= 589824,
            -589824 <= y <= 589824,
            count <= MAX_ITER,
            escape_count(cx as int, cy as int, cx as int, cy as int, MAX_ITER as nat) == count
                + escape_count(
                cx as int,
                cy as int,
                x as int,
                y as int,
                (MAX_ITER - count) as nat,
            ),
        ensures
            count as nat == escape_count(
                cx as int,
                cy as int,
                cx as int,
                cy as int,
                MAX_ITER as nat,
            ),
        decreases MAX_ITER - count,
    {
        if count >= MAX_ITER {
            proof {
                assert(escape_count(cx as int, cy as int, x as int, y as int, 0nat) == 0);
            }
            break ;
        }
        proof {
            assert(0 <= (x as int) * (x as int) <= 347892350976) by (nonlinear_arith)
                requires
                    -589824 <= (x as int) <= 589824,
            ;
            assert(0 <= (y as int) * (y as int) <= 347892350976) by (nonlinear_arith)
                requires
                    -589824 <= (y as int) <= 589824,
            ;
        }
        let xx: i64 = x * x;
        let yy: i64 = y * y;
        if xx + yy >= 4 * FP_ONE * FP_ONE {
            proof {
                assert(escape_count(
                    cx as int,
                    cy as int,
                    x as int,
                    y as int,
                    (MAX_ITER - count) as nat,
                ) == 0);
            }
            break ;
        }
        proof {
            assert(-131072 < (x as int) < 131072) by (nonlinear_arith)
                requires
                    0 <= (x as int) * (x as int) < 17179869184,
            ;
            assert(-131072 < (y as int) < 131072) by (nonlinear_arith)
                requires
                    0 <= (y as int) * (y as int) < 17179869184,
            ;
            assert(-17179869184 < (x as int) * (y as int) < 17179869184) by (nonlinear_arith)
                requires
                    -131072 < (x as int) < 131072,
                    -131072 < (y as int) < 131072,
            ;
        }
        let diff: i64 = xx - yy;
        let doubled: i64 = 2 * (x * y);
        proof {
            assert(2 * ((x as int) * (y as int)) == 2 * (x as int) * (y as int))
                by (nonlinear_arith);
        }
        let next_x: i64 = fp_scale_down_exec(diff) + cx;
        let next_y: i64 = fp_scale_down_exec(doubled) + cy;
        proof {
            assert(next_x as int == step_x(x as int, y as int, cx as int));
            assert(next_y as int == step_y(x as int, y as int, cy as int));
            assert(escape_count(
                cx as int,
                cy as int,
                x as int,
                y as int,
                (MAX_ITER - count) as nat,
            ) == 1 + escape_count(
                cx as int,
                cy as int,
                step_x(x as int, y as int, cx as int),
                step_y(x as int, y as int, cy as int),
                (MAX_ITER - count - 1) as nat,
            ));
        }
        x = next_x;
        y = next_y;
        count = count + 1;
    }
    count
}

/// Fills a square texture of side `size` with the escape count of each
/// pixel's point, row by row: one byte per texel.
#[verifier::loop_isolation(false)]
pub fn create_texels(size: usize) -> (texels: Vec<u8>)
    requires
        2 <= size <= 4096,
    ensures
        texels@.len() == size * size,
        forall|id: int|
            0 <= id < size * size ==> texels@[id] as nat == texel_value(size as int, id),
{
    proof {
        assert((size as int) * (size as int) <= 16777216) by (nonlinear_arith)
            requires
                size as int <= 4096,
        ;
    }
    let area: usize = size * size;
    let mut texels: Vec<u8> = Vec::new();
    let mut id: usize = 0;
    while id < area
        invariant
            id <= area,
            texels@.len() == id,
            forall|k: int| 0 <= k < id ==> texels@[k] as nat == texel_value(size as int, k),
        decreases area - id,
    {
        let col: usize = id % size;
        let row: usize = id / size;
        let denom: u64 = (size as u64) - 1;
        let cx_scaled: u64 = 3 * (col as u64) * (FP_ONE as u64) / denom;
        let cy_scaled: u64 = 2 * (row as u64) * (FP_ONE as u64) / denom;
        proof {
            vstd::arithmetic::div_mod::lemma_multiply_divide_lt(id as int, size as int, size as int);
            assert(col < size && row < size);
            assert(3 * (col as int) * 65536 <= 3 * (size as int - 1) * 65536) by (nonlinear_arith)
                requires
                    0 <= (col as int) <= (size as int) - 1,
            ;
            assert(2 * (row as int) * 65536 <= 2 * (size as int - 1) * 65536) by (nonlinear_arith)
                requires
                    0 <= (row as int) <= (size as int) - 1,
            ;
            lemma_div_is_ordered(
                3 * (col as int) * 65536,
                3 * (size as int - 1) * 65536,
                size as int - 1,
            );
            lemma_div_is_ordered(
                2 * (row as int) * 65536,
                2 * (size as int - 1) * 65536,
                size as int - 1,
            );
            assert(3 * (size as int - 1) * 65536 == (3 * 65536) * (size as int - 1))
                by (nonlinear_arith);
            assert(2 * (size as int - 1) * 65536 == (2 * 65536) * (size as int - 1))
                by (nonlinear_arith);
            vstd::arithmetic::div_mod::lemma_div_by_multiple(3 * 65536int, (size as int) - 1);
            vstd::arithmetic::div_mod::lemma_div_by_multiple(2 * 65536int, (size as int) - 1);
            assert(cx_scaled <= 196608);
            assert(cy_scaled <= 131072);
        }
        let cx: i64 = cx_scaled as i64 - 2 * FP_ONE;
        let cy: i64 = cy_scaled as i64 - FP_ONE;
        proof {
            assert(cx as int == pixel_cx(size as int, col as int));
            assert(cy as int == pixel_cy(size as int, row as int));
        }
        let texel: u8 = point_escape_count(cx, cy);
        proof {
            assert(texel as nat == texel_value(size as int, id as int));
        }
        texels.push(texel);
        id = id + 1;
    }
    texels
}

} // verus!
