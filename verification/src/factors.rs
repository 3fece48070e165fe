//! The integer side of one evaluation, gathered behind the input check.

use vstd::prelude::*;
use crate::nuclide::{check_nuclide, valid_nuclide, SemfError};
use crate::pairing::{pairing_sign, pairing_sign_of};
use crate::terms::{asymmetry_factor, asymmetry_square, coulomb_factor, coulomb_pairs};

verus! {

/// What the five terms take from the nucleus, apart from roots and powers of
/// the mass number:
///
/// ```text
/// volume    = a_v * mass
/// surface   = a_s * mass^(2/3)
/// Coulomb   = a_c * coulomb / mass^(1/3)
/// asymmetry = a_a * asymmetry / mass
/// pairing   = pairing * a_p * mass^(k_p)
/// ```
#[derive(Clone, Copy, Debug, PartialEq, Eq, Structural)]
pub struct TermFactors {
    /// The mass number `A`.
    pub mass: u64,
    /// The Coulomb numerator `Z (Z - 1)`.
    pub coulomb: u128,
    /// The asymmetry numerator `(A - 2Z)^2`.
    pub asymmetry: u128,
    /// The pairing sign: -1, 0 or +1.
    pub pairing: i8,
}

impl TermFactors {
    /// Whether these are the factors of the nucleus with mass number `a` and
    /// atomic number `z`. At most one value satisfies this for given `a`, `z`.
    pub open spec fn describes(self, a: int, z: int) -> bool {
        &&& self.mass == a
        &&& self.coulomb == coulomb_pairs(z)
        &&& self.asymmetry == asymmetry_square(a, z)
        &&& self.pairing == pairing_sign_of(a, z)
    }
}

/// `describes` leaves no choice: two values that describe the same nucleus
/// are equal, so an evaluation has one result however often it is repeated.
pub proof fn lemma_factors_unique(f: TermFactors, g: TermFactors, a: int, z: int)
    requires
        f.describes(a, z),
        g.describes(a, z),
    ensures
        f == g,
{
}

/// Without protons there is no Coulomb term: its numerator is exactly zero,
/// whatever the mass number.
pub proof fn lemma_no_protons_no_coulomb(f: TermFactors, a: int)
    requires
        f.describes(a, 0),
    ensures
        f.coulomb == 0,
{
}

/// Checks the input and computes the factors of all five terms. They depend
/// on the nucleus alone, not on any coefficient.
///
/// Fails with `InvalidInput` exactly when `a` is zero or `z` exceeds `a`.
/// The last clause repeats the asymmetry numerator as a polynomial, as
/// `asymmetry_factor` does.
pub fn term_factors(a: u64, z: u64) -> (r: Result<TermFactors, SemfError>)
    ensures
        valid_nuclide(a as int, z as int) ==> r is Ok && r->Ok_0.describes(a as int, z as int),
        !valid_nuclide(a as int, z as int) ==> r == Err::<TermFactors, SemfError>(
            SemfError::InvalidInput,
        ),
        r matches Ok(f) ==> f.asymmetry == a * a - 4 * a * z + 4 * z * z,
{
    match check_nuclide(a, z) {
        Ok(()) => Ok(
            TermFactors {
                mass: a,
                coulomb: coulomb_factor(z),
                asymmetry: asymmetry_factor(a, z),
                pairing: pairing_sign(a, z),
            },
        ),
        Err(e) => Err(e),
    }
}

} // verus!
