//! Mass from luminosity: which power law applies.
//!
//! The mass of a star follows its luminosity by one of five fits, each valid
//! on an open stretch of luminosities. The four luminosities where one stretch
//! meets the next belong to neither: there the mass is the fixed number zero.

use vstd::prelude::*;
use crate::binary64::Binary64;

verus! {

/// 0.3302, the upper end of the faintest stretch.
pub const FIRST_EDGE: u64 = 0x3FD5_21FF_2E48_E8A7;
/// 16.0, the upper end of the second stretch.
pub const SECOND_EDGE: u64 = 0x4030_0000_0000_0000;
/// 50087.9, the upper end of the third stretch.
pub const THIRD_EDGE: u64 = 0x40E8_74FC_CCCC_CCCD;
/// 1233870.0, the upper end of the fourth stretch.
pub const FOURTH_EDGE: u64 = 0x4132_D3CE_0000_0000;

/// 1.8946, the scale of the faintest stretch.
pub const FIRST_SCALE: u64 = 0x3FFE_5048_16F0_068E;
/// 0.4347, the exponent of the faintest stretch.
pub const FIRST_EXPONENT: u64 = 0x3FDB_D21F_F2E4_8E8A;
/// 1.0, the scale of the second stretch.
pub const SECOND_SCALE: u64 = 0x3FF0_0000_0000_0000;
/// 0.25, the exponent of the second stretch.
pub const SECOND_EXPONENT: u64 = 0x3FD0_0000_0000_0000;
/// 0.9038, the scale of the third stretch.
pub const THIRD_SCALE: u64 = 0x3FEC_EBED_FA43_FE5D;
/// 0.25, the exponent of the third stretch.
pub const THIRD_EXPONENT: u64 = 0x3FD0_0000_0000_0000;
/// 1.0, the scale of the fourth stretch.
pub const FOURTH_SCALE: u64 = 0x3FF0_0000_0000_0000;
/// 0.2857, the exponent of the fourth stretch.
pub const FOURTH_EXPONENT: u64 = 0x3FD2_48E8_A71D_E69B;
/// 32000.0, the factor of the brightest stretch.
pub const FIFTH_FACTOR: u64 = 0x40DF_4000_0000_0000;
/// 0.0, the mass where no stretch applies.
pub const NO_MASS: u64 = 0x0000_0000_0000_0000;

/// How to compute a mass from a luminosity `l`.
#[derive(Clone, Copy, Debug, PartialEq, Eq, Structural)]
pub enum MassLaw {
    /// `scale * l^exponent`.
    Power { scale: Binary64, exponent: Binary64 },
    /// `l * factor`.
    Linear { factor: Binary64 },
    /// The given mass, whatever `l` is.
    Fixed { mass: Binary64 },
}

/// The law for a luminosity. The stretches are open at both ends, so an edge
/// itself, like a luminosity that is not a number, gets the fixed mass zero.
pub open spec fn mass_law(luminosity: Binary64) -> MassLaw {
    let first = Binary64::from_bits(FIRST_EDGE);
    let second = Binary64::from_bits(SECOND_EDGE);
    let third = Binary64::from_bits(THIRD_EDGE);
    let fourth = Binary64::from_bits(FOURTH_EDGE);
    if luminosity.lt(first) {
        MassLaw::Power {
            scale: Binary64::from_bits(FIRST_SCALE),
            exponent: Binary64::from_bits(FIRST_EXPONENT),
        }
    } else if first.lt(luminosity) && luminosity.lt(second) {
        MassLaw::Power {
            scale: Binary64::from_bits(SECOND_SCALE),
            exponent: Binary64::from_bits(SECOND_EXPONENT),
        }
    } else if second.lt(luminosity) && luminosity.lt(third) {
        MassLaw::Power {
            scale: Binary64::from_bits(THIRD_SCALE),
            exponent: Binary64::from_bits(THIRD_EXPONENT),
        }
    } else if third.lt(luminosity) && luminosity.lt(fourth) {
        MassLaw::Power {
            scale: Binary64::from_bits(FOURTH_SCALE),
            exponent: Binary64::from_bits(FOURTH_EXPONENT),
        }
    } else if fourth.lt(luminosity) {
        MassLaw::Linear { factor: Binary64::from_bits(FIFTH_FACTOR) }
    } else {
        MassLaw::Fixed { mass: Binary64::from_bits(NO_MASS) }
    }
}

/// Chooses the law by which the mass follows from `luminosity`.
pub fn luminosity_to_mass(luminosity: Binary64) -> (law: MassLaw)
    ensures
        law == mass_law(luminosity),
{
    let first = Binary64::from_bits(FIRST_EDGE);
    let second = Binary64::from_bits(SECOND_EDGE);
    let third = Binary64::from_bits(THIRD_EDGE);
    let fourth = Binary64::from_bits(FOURTH_EDGE);
    if luminosity.below(&first) {
        MassLaw::Power {
            scale: Binary64::from_bits(FIRST_SCALE),
            exponent: Binary64::from_bits(FIRST_EXPONENT),
        }
    } else if first.below(&luminosity) && luminosity.below(&second) {
        MassLaw::Power {
            scale: Binary64::from_bits(SECOND_SCALE),
            exponent: Binary64::from_bits(SECOND_EXPONENT),
        }
    } else if second.below(&luminosity) && luminosity.below(&third) {
        MassLaw::Power {
            scale: Binary64::from_bits(THIRD_SCALE),
            exponent: Binary64::from_bits(THIRD_EXPONENT),
        }
    } else if third.below(&luminosity) && luminosity.below(&fourth) {
        MassLaw::Power {
            scale: Binary64::from_bits(FOURTH_SCALE),
            exponent: Binary64::from_bits(FOURTH_EXPONENT),
        }
    } else if fourth.below(&luminosity) {
        MassLaw::Linear { factor: Binary64::from_bits(FIFTH_FACTOR) }
    } else {
        MassLaw::Fixed { mass: Binary64::from_bits(NO_MASS) }
    }
}

/// Whether `luminosity` is one of the four edges between stretches. No edge
/// is zero, so each is the only pattern of its number.
pub open spec fn is_edge(luminosity: Binary64) -> bool {
    ||| luminosity.bits == FIRST_EDGE
    ||| luminosity.bits == SECOND_EDGE
    ||| luminosity.bits == THIRD_EDGE
    ||| luminosity.bits == FOURTH_EDGE
}

/// At each of the four edges the mass is exactly zero.
pub proof fn mass_is_zero_at_edges(luminosity: Binary64)
    requires
        is_edge(luminosity),
    ensures
        mass_law(luminosity) == (MassLaw::Fixed { mass: Binary64::from_bits(NO_MASS) }),
{
}

/// The mass is the fixed zero only at an edge or for a luminosity that is not
/// a number: every other luminosity, negative ones and both infinities
/// included, falls in one of the five stretches.
pub proof fn mass_is_fitted_between_edges(luminosity: Binary64)
    ensures
        mass_law(luminosity) is Fixed <==> is_edge(luminosity) || luminosity.is_nan(),
{
}

} // verus!
