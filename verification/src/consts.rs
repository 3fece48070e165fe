//! The fitted coefficients of the formula.

use vstd::prelude::*;

verus! {

/// Every coefficient is held as an integer number of thousandths: the stored
/// `c` stands for the rational `c / COEFF_DENOMINATOR`. The published fits
/// have at most three decimals, so they are represented exactly.
pub const COEFF_DENOMINATOR: i64 = 1000;

/// The six coefficients of the formula, each in thousandths
/// (`a_v == 15_800` stands for 15.8).
///
/// * `a_v`: volume term coefficient
/// * `a_s`: surface term coefficient
/// * `a_c`: Coulomb term coefficient
/// * `a_a`: asymmetry term coefficient
/// * `a_p`: pairing amplitude, the factor of `A^(k_p)`
/// * `k_p`: pairing exponent
#[derive(Clone, Copy, Debug, PartialEq, Eq, Structural)]
pub struct SemiEmpConsts {
    pub a_v: i64,
    pub a_s: i64,
    pub a_c: i64,
    pub a_a: i64,
    pub a_p: i64,
    pub k_p: i64,
}

impl SemiEmpConsts {
    /// First linear fit: 15.8, 18.3, 0.714, 23.2, 12.0 and exponent -1/2.
    pub fn linear_fit_1() -> (c: SemiEmpConsts)
        ensures
            c.a_v == 15_800,
            c.a_s == 18_300,
            c.a_c == 714,
            c.a_a == 23_200,
            c.a_p == 12_000,
            c.k_p == -500,
    {
        SemiEmpConsts {
            a_v: 15_800,
            a_s: 18_300,
            a_c: 714,
            a_a: 23_200,
            a_p: 12_000,
            k_p: -500,
        }
    }

    /// Second linear fit: 15.76, 17.81, 0.711, 23.702, 34.0 and exponent -3/4.
    pub fn linear_fit_2() -> (c: SemiEmpConsts)
        ensures
            c.a_v == 15_760,
            c.a_s == 17_810,
            c.a_c == 711,
            c.a_a == 23_702,
            c.a_p == 34_000,
            c.k_p == -750,
    {
        SemiEmpConsts {
            a_v: 15_760,
            a_s: 17_810,
            a_c: 711,
            a_a: 23_702,
            a_p: 34_000,
            k_p: -750,
        }
    }
}

} // verus!
