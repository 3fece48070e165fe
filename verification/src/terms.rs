//! Integer numerators of the Coulomb and asymmetry terms.

use vstd::prelude::*;
use crate::nuclide::neutron_number;

verus! {

/// The Coulomb numerator `Z (Z - 1)`: twice the number of proton pairs.
pub open spec fn coulomb_pairs(z: int) -> int {
    z * (z - 1)
}

/// The asymmetry numerator `(A - 2Z)^2`: the squared neutron excess `N - Z`.
pub open spec fn asymmetry_square(a: int, z: int) -> int {
    (a - 2 * z) * (a - 2 * z)
}

/// `Z (Z - 1)` is never negative when `Z` is not, and it fits in 128 bits
/// for every 64-bit `Z`.
pub proof fn lemma_coulomb_pairs_bounds(z: int)
    requires
        0 <= z <= u64::MAX,
    ensures
        0 <= coulomb_pairs(z) <= u128::MAX,
{
    assert(0 <= z * (z - 1) <= 0xffff_ffff_ffff_ffff * 0xffff_ffff_ffff_fffe) by (nonlinear_arith)
        requires
            0 <= z <= 0xffff_ffff_ffff_ffff,
    ;
}

/// Computes `Z (Z - 1)` without leaving the unsigned range: with no protons
/// the numerator is exactly zero, not the wrapped product that `0 * (0 - 1)`
/// would be in unsigned arithmetic.
pub fn coulomb_factor(z: u64) -> (c: u128)
    ensures
        c == coulomb_pairs(z as int),
        z == 0 ==> c == 0,
{
    if z == 0 {
        0
    } else {
        proof {
            lemma_coulomb_pairs_bounds(z as int);
        }
        (z as u128) * ((z - 1) as u128)
    }
}

/// The square written out: `(A - 2Z)^2 = A^2 - 4AZ + 4Z^2`.
pub proof fn lemma_asymmetry_square_expanded(a: int, z: int)
    ensures
        asymmetry_square(a, z) == a * a - 4 * a * z + 4 * z * z,
{
    assert((a - 2 * z) * (a - 2 * z) == a * a - 4 * a * z + 4 * z * z) by (nonlinear_arith);
}

/// `(A - 2Z)^2` fits in 128 bits whenever `Z <= A`.
pub proof fn lemma_asymmetry_square_bounds(a: int, z: int)
    requires
        0 <= z <= a <= u64::MAX,
    ensures
        0 <= asymmetry_square(a, z) <= u128::MAX,
{
    let d = a - 2 * z;
    assert(0 <= d * d <= 0xffff_ffff_ffff_ffff * 0xffff_ffff_ffff_ffff) by (nonlinear_arith)
        requires
            -0xffff_ffff_ffff_ffff <= d <= 0xffff_ffff_ffff_ffff,
    ;
}

/// Computes `(A - 2Z)^2`. The difference may be negative (more protons than
/// neutrons), so its magnitude is taken before squaring.
///
/// The second clause states the same number as a polynomial, the form in
/// which it is evaluated on given numbers without a hint.
pub fn asymmetry_factor(a: u64, z: u64) -> (q: u128)
    requires
        z <= a,
    ensures
        q == asymmetry_square(a as int, z as int),
        q == a * a - 4 * a * z + 4 * z * z,
{
    let n: u64 = neutron_number(a, z);
    let excess: u128 = if n >= z {
        (n - z) as u128
    } else {
        (z - n) as u128
    };
    proof {
        lemma_asymmetry_square_bounds(a as int, z as int);
        let d = a as int - 2 * (z as int);
        assert(excess == d || excess == -d);
        assert(excess * excess == d * d) by (nonlinear_arith)
            requires
                excess == d || excess == -d,
        ;
        lemma_asymmetry_square_expanded(a as int, z as int);
    }
    excess * excess
}

} // verus!
