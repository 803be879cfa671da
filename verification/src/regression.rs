//! The regressions from colour index to luminosity and to radius, one pair
//! for each kind of star, and the choice among them.
//!
//! Every regression has the shape `10^(a + b * ln(c / (bv + d)))`, in solar
//! units, with `bv` the B-V colour index.

use vstd::prelude::*;
use crate::binary64::Binary64;
use crate::text::same_text;

verus! {

/// -0.27, the bluest colour index of a supergiant of class I.
pub const SUPERGIANT_LOW: u64 = 0xBFD1_47AE_147A_E148;
/// 0.76, the reddest colour index of a supergiant of class I.
pub const SUPERGIANT_HIGH: u64 = 0x3FE8_51EB_851E_B852;
/// 0.76, the bluest colour index of a supergiant of class Ia.
pub const SUPERGIANT_A_LOW: u64 = 0x3FE8_51EB_851E_B852;
/// 1.80, the reddest colour index of a supergiant of class Ia.
pub const SUPERGIANT_A_HIGH: u64 = 0x3FFC_CCCC_CCCC_CCCD;
/// 0.86, the bluest colour index of a giant.
pub const GIANT_LOW: u64 = 0x3FEB_851E_B851_EB85;
/// 1.33, the reddest colour index of a giant.
pub const GIANT_HIGH: u64 = 0x3FF5_47AE_147A_E148;

/// -26.63
pub const MAIN_SEQUENCE_LUMINOSITY_A: u64 = 0xC03A_A147_AE14_7AE1;
/// 3.083
pub const MAIN_SEQUENCE_LUMINOSITY_B: u64 = 0x4008_A9FB_E76C_8B44;
/// 7360.9
pub const MAIN_SEQUENCE_LUMINOSITY_C: u64 = 0x40BC_C0E6_6666_6666;
/// 0.6411
pub const MAIN_SEQUENCE_LUMINOSITY_D: u64 = 0x3FE4_83E4_25AE_E632;
/// -5.793
pub const MAIN_SEQUENCE_RADIUS_A: u64 = 0xC017_2C08_3126_E979;
/// 0.6729
pub const MAIN_SEQUENCE_RADIUS_B: u64 = 0x3FE5_8865_94AF_4F0E;
/// 7360.9
pub const MAIN_SEQUENCE_RADIUS_C: u64 = 0x40BC_C0E6_6666_6666;
/// 0.6411
pub const MAIN_SEQUENCE_RADIUS_D: u64 = 0x3FE4_83E4_25AE_E632;

/// 29.469
pub const GIANT_LUMINOSITY_A: u64 = 0x403D_7810_624D_D2F2;
/// -3.2676
pub const GIANT_LUMINOSITY_B: u64 = 0xC00A_240B_7803_46DC;
/// 8527.59
pub const GIANT_LUMINOSITY_C: u64 = 0x40C0_A7CB_851E_B852;
/// 0.7920
pub const GIANT_LUMINOSITY_D: u64 = 0x3FE9_5810_624D_D2F2;
/// 22.25
pub const GIANT_RADIUS_A: u64 = 0x4036_4000_0000_0000;
/// -2.502
pub const GIANT_RADIUS_B: u64 = 0xC004_0418_9374_BC6A;
/// 8527.0
pub const GIANT_RADIUS_C: u64 = 0x40C0_A780_0000_0000;
/// 0.7920
pub const GIANT_RADIUS_D: u64 = 0x3FE9_5810_624D_D2F2;

/// 1.7881
pub const SUPERGIANT_LUMINOSITY_A: u64 = 0x3FFC_9C0E_BEDF_A440;
/// 0.3112
pub const SUPERGIANT_LUMINOSITY_B: u64 = 0x3FD3_EAB3_67A0_F909;
/// 8261.19
pub const SUPERGIANT_LUMINOSITY_C: u64 = 0x40C0_2298_51EB_851F;
/// 0.7491
pub const SUPERGIANT_LUMINOSITY_D: u64 = 0x3FE7_F8A0_902D_E00D;
/// 8.417
pub const SUPERGIANT_RADIUS_A: u64 = 0x4020_D581_0624_DD2F;
/// 0.7129
pub const SUPERGIANT_RADIUS_B: u64 = 0x3FE6_D013_A92A_3055;
/// 8261.0
pub const SUPERGIANT_RADIUS_C: u64 = 0x40C0_2280_0000_0000;
/// 0.7491
pub const SUPERGIANT_RADIUS_D: u64 = 0x3FE7_F8A0_902D_E00D;

/// 10.392
pub const SUPERGIANT_A_LUMINOSITY_A: u64 = 0x4024_C8B4_3958_1062;
/// -0.682
pub const SUPERGIANT_A_LUMINOSITY_B: u64 = 0xBFE5_D2F1_A9FB_E76D;
/// 8261.19
pub const SUPERGIANT_A_LUMINOSITY_C: u64 = 0x40C0_2298_51EB_851F;
/// 0.7491
pub const SUPERGIANT_A_LUMINOSITY_D: u64 = 0x3FE7_F8A0_902D_E00D;
/// 12.71
pub const SUPERGIANT_A_RADIUS_A: u64 = 0x4029_6B85_1EB8_51EC;
/// -1.21
pub const SUPERGIANT_A_RADIUS_B: u64 = 0xBFF3_5C28_F5C2_8F5C;
/// 8261.0
pub const SUPERGIANT_A_RADIUS_C: u64 = 0x40C0_2280_0000_0000;
/// 0.7491
pub const SUPERGIANT_A_RADIUS_D: u64 = 0x3FE7_F8A0_902D_E00D;

/// The four constants of a regression `10^(a + b * ln(c / (bv + d)))`.
#[derive(Clone, Copy, Debug, PartialEq, Eq, Structural)]
pub struct Regression {
    pub a: Binary64,
    pub b: Binary64,
    pub c: Binary64,
    pub d: Binary64,
}

impl Regression {
    pub open spec fn spec_from_bits(a: u64, b: u64, c: u64, d: u64) -> Regression {
        Regression {
            a: Binary64::from_bits(a),
            b: Binary64::from_bits(b),
            c: Binary64::from_bits(c),
            d: Binary64::from_bits(d),
        }
    }

    /// The regression whose constants have the given bit patterns.
    #[verifier::when_used_as_spec(spec_from_bits)]
    pub fn from_bits(a: u64, b: u64, c: u64, d: u64) -> (fit: Regression)
        ensures
            fit == Regression::spec_from_bits(a, b, c, d),
    {
        Regression {
            a: Binary64::from_bits(a),
            b: Binary64::from_bits(b),
            c: Binary64::from_bits(c),
            d: Binary64::from_bits(d),
        }
    }
}

/// The kinds of star that have regressions of their own.
#[derive(Clone, Copy, Debug, PartialEq, Eq, Structural)]
pub enum LuminosityClass {
    /// Class V, and whatever fits no other kind.
    MainSequence,
    /// Class III.
    Giant,
    /// Class I.
    Supergiant,
    /// Class Ia.
    SupergiantA,
}

impl LuminosityClass {
    /// The kind of a star by its class code and colour index. A code applies
    /// only to a colour index inside the code's own range, ends included;
    /// every other star counts as main sequence.
    pub open spec fn of(bv: Binary64, code: Seq<char>) -> LuminosityClass {
        if code == "I"@ && bv.within(
            Binary64::from_bits(SUPERGIANT_LOW),
            Binary64::from_bits(SUPERGIANT_HIGH),
        ) {
            LuminosityClass::Supergiant
        } else if code == "Ia"@ && bv.within(
            Binary64::from_bits(SUPERGIANT_A_LOW),
            Binary64::from_bits(SUPERGIANT_A_HIGH),
        ) {
            LuminosityClass::SupergiantA
        } else if code == "III"@ && bv.within(
            Binary64::from_bits(GIANT_LOW),
            Binary64::from_bits(GIANT_HIGH),
        ) {
            LuminosityClass::Giant
        } else {
            LuminosityClass::MainSequence
        }
    }

    /// The regression from colour index to luminosity for this kind.
    pub open spec fn luminosity_fit(self) -> Regression {
        match self {
            LuminosityClass::MainSequence => Regression::from_bits(
                MAIN_SEQUENCE_LUMINOSITY_A,
                MAIN_SEQUENCE_LUMINOSITY_B,
                MAIN_SEQUENCE_LUMINOSITY_C,
                MAIN_SEQUENCE_LUMINOSITY_D,
            ),
            LuminosityClass::Giant => Regression::from_bits(
                GIANT_LUMINOSITY_A,
                GIANT_LUMINOSITY_B,
                GIANT_LUMINOSITY_C,
                GIANT_LUMINOSITY_D,
            ),
            LuminosityClass::Supergiant => Regression::from_bits(
                SUPERGIANT_LUMINOSITY_A,
                SUPERGIANT_LUMINOSITY_B,
                SUPERGIANT_LUMINOSITY_C,
                SUPERGIANT_LUMINOSITY_D,
            ),
            LuminosityClass::SupergiantA => Regression::from_bits(
                SUPERGIANT_A_LUMINOSITY_A,
                SUPERGIANT_A_LUMINOSITY_B,
                SUPERGIANT_A_LUMINOSITY_C,
                SUPERGIANT_A_LUMINOSITY_D,
            ),
        }
    }

    /// The regression from colour index to radius for this kind.
    pub open spec fn radius_fit(self) -> Regression {
        match self {
            LuminosityClass::MainSequence => Regression::from_bits(
                MAIN_SEQUENCE_RADIUS_A,
                MAIN_SEQUENCE_RADIUS_B,
                MAIN_SEQUENCE_RADIUS_C,
                MAIN_SEQUENCE_RADIUS_D,
            ),
            LuminosityClass::Giant => Regression::from_bits(
                GIANT_RADIUS_A,
                GIANT_RADIUS_B,
                GIANT_RADIUS_C,
                GIANT_RADIUS_D,
            ),
            LuminosityClass::Supergiant => Regression::from_bits(
                SUPERGIANT_RADIUS_A,
                SUPERGIANT_RADIUS_B,
                SUPERGIANT_RADIUS_C,
                SUPERGIANT_RADIUS_D,
            ),
            LuminosityClass::SupergiantA => Regression::from_bits(
                SUPERGIANT_A_RADIUS_A,
                SUPERGIANT_A_RADIUS_B,
                SUPERGIANT_A_RADIUS_C,
                SUPERGIANT_A_RADIUS_D,
            ),
        }
    }

    /// Decides which kind of star the class code and the colour index stand
    /// for.
    pub fn select(bv: Binary64, luminosity_class: &str) -> (kind: LuminosityClass)
        ensures
            kind == LuminosityClass::of(bv, luminosity_class@),
    {
        if same_text(luminosity_class, "I") && bv.is_within(
            &Binary64::from_bits(SUPERGIANT_LOW),
            &Binary64::from_bits(SUPERGIANT_HIGH),
        ) {
            LuminosityClass::Supergiant
        } else if same_text(luminosity_class, "Ia") && bv.is_within(
            &Binary64::from_bits(SUPERGIANT_A_LOW),
            &Binary64::from_bits(SUPERGIANT_A_HIGH),
        ) {
            LuminosityClass::SupergiantA
        } else if same_text(luminosity_class, "III") && bv.is_within(
            &Binary64::from_bits(GIANT_LOW),
            &Binary64::from_bits(GIANT_HIGH),
        ) {
            LuminosityClass::Giant
        } else {
            LuminosityClass::MainSequence
        }
    }

    /// The constants of this kind's luminosity regression.
    pub fn luminosity_regression(&self) -> (fit: Regression)
        ensures
            fit == self.luminosity_fit(),
    {
        match self {
            LuminosityClass::MainSequence => Regression::from_bits(
                MAIN_SEQUENCE_LUMINOSITY_A,
                MAIN_SEQUENCE_LUMINOSITY_B,
                MAIN_SEQUENCE_LUMINOSITY_C,
                MAIN_SEQUENCE_LUMINOSITY_D,
            ),
            LuminosityClass::Giant => Regression::from_bits(
                GIANT_LUMINOSITY_A,
                GIANT_LUMINOSITY_B,
                GIANT_LUMINOSITY_C,
                GIANT_LUMINOSITY_D,
            ),
            LuminosityClass::Supergiant => Regression::from_bits(
                SUPERGIANT_LUMINOSITY_A,
                SUPERGIANT_LUMINOSITY_B,
                SUPERGIANT_LUMINOSITY_C,
                SUPERGIANT_LUMINOSITY_D,
            ),
            LuminosityClass::SupergiantA => Regression::from_bits(
                SUPERGIANT_A_LUMINOSITY_A,
                SUPERGIANT_A_LUMINOSITY_B,
                SUPERGIANT_A_LUMINOSITY_C,
                SUPERGIANT_A_LUMINOSITY_D,
            ),
        }
    }

    /// The constants of this kind's radius regression.
    pub fn radius_regression(&self) -> (fit: Regression)
        ensures
            fit == self.radius_fit(),
    {
        match self {
            LuminosityClass::MainSequence => Regression::from_bits(
                MAIN_SEQUENCE_RADIUS_A,
                MAIN_SEQUENCE_RADIUS_B,
                MAIN_SEQUENCE_RADIUS_C,
                MAIN_SEQUENCE_RADIUS_D,
            ),
            LuminosityClass::Giant => Regression::from_bits(
                GIANT_RADIUS_A,
                GIANT_RADIUS_B,
                GIANT_RADIUS_C,
                GIANT_RADIUS_D,
            ),
            LuminosityClass::Supergiant => Regression::from_bits(
                SUPERGIANT_RADIUS_A,
                SUPERGIANT_RADIUS_B,
                SUPERGIANT_RADIUS_C,
                SUPERGIANT_RADIUS_D,
            ),
            LuminosityClass::SupergiantA => Regression::from_bits(
                SUPERGIANT_A_RADIUS_A,
                SUPERGIANT_A_RADIUS_B,
                SUPERGIANT_A_RADIUS_C,
                SUPERGIANT_A_RADIUS_D,
            ),
        }
    }
}

/// The regression that gives the luminosity of a star from its colour index
/// and class code.
pub fn bv_to_luminosity(bv: Binary64, luminosity_class: &str) -> (fit: Regression)
    ensures
        fit == LuminosityClass::of(bv, luminosity_class@).luminosity_fit(),
{
    LuminosityClass::select(bv, luminosity_class).luminosity_regression()
}

/// The regression that gives the radius of a star from its colour index and
/// class code.
pub fn bv_to_radius(bv: Binary64, luminosity_class: &str) -> (fit: Regression)
    ensures
        fit == LuminosityClass::of(bv, luminosity_class@).radius_fit(),
{
    LuminosityClass::select(bv, luminosity_class).radius_regression()
}

/// A star is held for anything but main sequence only inside the range of
/// colour indices of the kind that its code names.
pub proof fn kind_needs_code_and_range(bv: Binary64, code: Seq<char>)
    ensures
        LuminosityClass::of(bv, code) is Supergiant <==> code == "I"@ && bv.within(
            Binary64::from_bits(SUPERGIANT_LOW),
            Binary64::from_bits(SUPERGIANT_HIGH),
        ),
        LuminosityClass::of(bv, code) is SupergiantA <==> code == "Ia"@ && bv.within(
            Binary64::from_bits(SUPERGIANT_A_LOW),
            Binary64::from_bits(SUPERGIANT_A_HIGH),
        ),
        LuminosityClass::of(bv, code) is Giant <==> code == "III"@ && bv.within(
            Binary64::from_bits(GIANT_LOW),
            Binary64::from_bits(GIANT_HIGH),
        ),
        bv.is_nan() ==> LuminosityClass::of(bv, code) is MainSequence,
{
    reveal_strlit("I");
    reveal_strlit("Ia");
    reveal_strlit("III");
    assert("I"@.len() == 1 && "Ia"@.len() == 2 && "III"@.len() == 3);
}

} // verus!
