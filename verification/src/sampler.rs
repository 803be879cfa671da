//! Weighting a uniform draw into a colour index or a luminosity class.
//!
//! Both tables are read with a draw taken uniformly from 0 to 100, from the
//! first row on, and a draw below zero is in the first row of either. They
//! differ where a draw equals the end of a row: in the table of colour
//! indices it belongs to the row that ends there, in the table of luminosity
//! classes to the row that begins there.

use vstd::prelude::*;
use crate::binary64::Binary64;

verus! {

/// 0.0, the colour index for a draw that no row holds.
pub const BV_DEFAULT: u64 = 0x0000_0000_0000_0000;
/// 100.0, the upper end of a draw.
pub const DRAW_END: u64 = 0x4059_0000_0000_0000;

/// 0.01, the upper end of the first row of colour indices.
pub const BV_ROW_1: u64 = 0x3F84_7AE1_47AE_147B;
/// 0.13
pub const BV_ROW_2: u64 = 0x3FC0_A3D7_0A3D_70A4;
/// 0.73
pub const BV_ROW_3: u64 = 0x3FE7_5C28_F5C2_8F5C;
/// 3.73
pub const BV_ROW_4: u64 = 0x400D_D70A_3D70_A3D7;
/// 11.33
pub const BV_ROW_5: u64 = 0x4026_A8F5_C28F_5C29;
/// 23.43
pub const BV_ROW_6: u64 = 0x4037_6E14_7AE1_47AE;

/// -0.33, the least colour index.
pub const BV_STEP_0: u64 = 0xBFD5_1EB8_51EB_851F;
/// -0.30
pub const BV_STEP_1: u64 = 0xBFD3_3333_3333_3333;
/// -0.02
pub const BV_STEP_2: u64 = 0xBF94_7AE1_47AE_147B;
/// 0.30
pub const BV_STEP_3: u64 = 0x3FD3_3333_3333_3333;
/// 0.58
pub const BV_STEP_4: u64 = 0x3FE2_8F5C_28F5_C28F;
/// 0.81
pub const BV_STEP_5: u64 = 0x3FE9_EB85_1EB8_51EC;
/// 1.40
pub const BV_STEP_6: u64 = 0x3FF6_6666_6666_6666;
/// 3.17, the end of the colour indices, itself never drawn.
pub const BV_STEP_7: u64 = 0x4009_5C28_F5C2_8F5C;

/// 0.00025, where the row of class Ia ends and that of class I begins.
pub const CLASS_ROW_1: u64 = 0x3F30_624D_D2F1_A9FC;
/// 0.0005, where the row of class I ends and that of class III begins.
pub const CLASS_ROW_2: u64 = 0x3F40_624D_D2F1_A9FC;
/// 8.5, where the row of class III ends and that of class V begins.
pub const CLASS_ROW_3: u64 = 0x4021_0000_0000_0000;

/// How many rows the table of colour indices has.
pub const BV_ROWS: usize = 7;

/// What to do for a colour index once the first draw is known.
#[derive(Clone, Copy, Debug, PartialEq, Eq, Structural)]
pub enum BvDraw {
    /// Draw it uniformly from `low`, included, to `high`, not included.
    Uniform { low: Binary64, high: Binary64 },
    /// Take this one.
    Fixed { bv: Binary64 },
}

impl BvDraw {
    /// Whether `bv` can come out of this step.
    pub open spec fn admits(self, bv: Binary64) -> bool {
        match self {
            BvDraw::Uniform { low, high } => low.le(bv) && bv.lt(high),
            BvDraw::Fixed { bv: only } => bv == only,
        }
    }
}

/// The upper end of a row of the table of colour indices: the greatest draw
/// that the row holds.
pub open spec fn bv_row_end(row: int) -> Binary64 {
    Binary64::from_bits(
        if row == 0 {
            BV_ROW_1
        } else if row == 1 {
            BV_ROW_2
        } else if row == 2 {
            BV_ROW_3
        } else if row == 3 {
            BV_ROW_4
        } else if row == 4 {
            BV_ROW_5
        } else if row == 5 {
            BV_ROW_6
        } else {
            DRAW_END
        },
    )
}

/// The colour indices at which one row's range ends and the next one's
/// begins: row `row` gives the range from step `row` to step `row + 1`.
pub open spec fn bv_step(index: int) -> Binary64 {
    Binary64::from_bits(
        if index == 0 {
            BV_STEP_0
        } else if index == 1 {
            BV_STEP_1
        } else if index == 2 {
            BV_STEP_2
        } else if index == 3 {
            BV_STEP_3
        } else if index == 4 {
            BV_STEP_4
        } else if index == 5 {
            BV_STEP_5
        } else if index == 6 {
            BV_STEP_6
        } else {
            BV_STEP_7
        },
    )
}

/// The first row at or after `from` whose upper end `draw` does not exceed.
pub open spec fn bv_row_from(draw: Binary64, from: int) -> Option<int>
    decreases BV_ROWS - from,
{
    if from < 0 || from >= BV_ROWS {
        None
    } else if draw.le(bv_row_end(from)) {
        Some(from)
    } else {
        bv_row_from(draw, from + 1)
    }
}

/// The step for `draw` by the table of colour indices. A draw above 100, or
/// one that is not a number, is in no row and gets the colour index zero.
pub open spec fn weighted_bv(draw: Binary64) -> BvDraw {
    match bv_row_from(draw, 0) {
        Some(row) => BvDraw::Uniform { low: bv_step(row), high: bv_step(row + 1) },
        None => BvDraw::Fixed { bv: Binary64::from_bits(BV_DEFAULT) },
    }
}

/// The class code of `draw` in the table of luminosity classes. Each row
/// holds the draws from its beginning, included, to its end, not included;
/// the last row is that of the main sequence, and a draw that is not a number
/// counts as in it.
pub open spec fn weighted_luminosity_class(draw: Binary64) -> Seq<char> {
    if draw.lt(Binary64::from_bits(CLASS_ROW_1)) {
        "Ia"@
    } else if draw.lt(Binary64::from_bits(CLASS_ROW_2)) {
        "I"@
    } else if draw.lt(Binary64::from_bits(CLASS_ROW_3)) {
        "III"@
    } else {
        "V"@
    }
}

/// The upper end of row `row`.
fn bv_row_end_at(row: usize) -> (end: Binary64)
    requires
        row < BV_ROWS,
    ensures
        end == bv_row_end(row as int),
{
    Binary64::from_bits(
        if row == 0 {
            BV_ROW_1
        } else if row == 1 {
            BV_ROW_2
        } else if row == 2 {
            BV_ROW_3
        } else if row == 3 {
            BV_ROW_4
        } else if row == 4 {
            BV_ROW_5
        } else if row == 5 {
            BV_ROW_6
        } else {
            DRAW_END
        },
    )
}

/// The colour index at step `index`.
fn bv_step_at(index: usize) -> (step: Binary64)
    requires
        index <= BV_ROWS,
    ensures
        step == bv_step(index as int),
{
    Binary64::from_bits(
        if index == 0 {
            BV_STEP_0
        } else if index == 1 {
            BV_STEP_1
        } else if index == 2 {
            BV_STEP_2
        } else if index == 3 {
            BV_STEP_3
        } else if index == 4 {
            BV_STEP_4
        } else if index == 5 {
            BV_STEP_5
        } else if index == 6 {
            BV_STEP_6
        } else {
            BV_STEP_7
        },
    )
}

/// Weights `draw`, taken uniformly from 0 to 100, into the range from which
/// the colour index is to be drawn.
pub fn get_weighted_bv(draw: Binary64) -> (step: BvDraw)
    ensures
        step == weighted_bv(draw),
{
    let mut row: usize = 0;
    while row < BV_ROWS
        invariant
            row <= BV_ROWS,
            bv_row_from(draw, 0) == bv_row_from(draw, row as int),
        decreases BV_ROWS - row,
    {
        if draw.at_most(&bv_row_end_at(row)) {
            return BvDraw::Uniform { low: bv_step_at(row), high: bv_step_at(row + 1) };
        }
        row += 1;
    }
    BvDraw::Fixed { bv: Binary64::from_bits(BV_DEFAULT) }
}

/// Weights `draw`, taken uniformly from 0 to 100, into a luminosity class
/// code.
pub fn get_weighted_luminosity_class(draw: Binary64) -> (code: String)
    ensures
        code@ == weighted_luminosity_class(draw),
{
    let code = if draw.below(&Binary64::from_bits(CLASS_ROW_1)) {
        "Ia"
    } else if draw.below(&Binary64::from_bits(CLASS_ROW_2)) {
        "I"
    } else if draw.below(&Binary64::from_bits(CLASS_ROW_3)) {
        "III"
    } else {
        "V"
    };
    code.to_owned()
}

/// The row that the table finds for a draw is the one between whose
/// neighbour's end and its own end the draw lies: the rows neither overlap
/// nor leave a draw up to 100 out.
pub proof fn bv_rows_partition_draws(draw: Binary64, row: int)
    requires
        0 <= row < BV_ROWS,
    ensures
        bv_row_from(draw, 0) == Some(row) <==> draw.le(bv_row_end(row)) && (row == 0
            || bv_row_end(row - 1).lt(draw)),
        bv_row_from(draw, 0).is_some() <==> draw.le(Binary64::from_bits(DRAW_END)),
{
    reveal_with_fuel(bv_row_from, 8);
}

/// The steps of the colour index rise, so every row's range holds numbers
/// and lies between the first step and the last.
pub proof fn bv_steps_rise(index: int)
    requires
        0 <= index < BV_ROWS,
    ensures
        bv_step(index).lt(bv_step(index + 1)),
        bv_step(0).le(bv_step(index)),
        bv_step(index + 1).le(bv_step(BV_ROWS as int)),
{
}

/// Whatever the draw, a colour index that comes out of its step is at least
/// -0.33 and below 3.17.
pub proof fn weighted_bv_in_bounds(draw: Binary64, bv: Binary64)
    requires
        weighted_bv(draw).admits(bv),
    ensures
        Binary64::from_bits(BV_STEP_0).le(bv),
        bv.lt(Binary64::from_bits(BV_STEP_7)),
{
    reveal_with_fuel(bv_row_from, 8);
    match bv_row_from(draw, 0) {
        Some(row) => {
            bv_steps_rise(row);
        },
        None => {},
    }
}

} // verus!
