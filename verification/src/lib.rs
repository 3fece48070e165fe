//! Integer core of the semi-empirical mass formula for nuclear binding energy.
//!
//! The formula estimates the binding energy of a nucleus with mass number `A`
//! and atomic number `Z` as
//!
//! ```text
//! E(A, Z) = a_v A - a_s A^(2/3) - a_c Z(Z-1) / A^(1/3) - a_a (A-2Z)^2 / A - s(A, Z) a_p A^(k_p)
//! ```
//!
//! Everything in it that is decided or computed on integers lives here and is
//! verified: which inputs describe a nucleus, the Coulomb and asymmetry
//! numerators, the sign `s` of the pairing term, and the two fitted sets of
//! coefficients as exact decimals. The roots and powers of `A` are left to the
//! caller's number type.

pub mod consts;
pub mod factors;
pub mod nuclide;
pub mod pairing;
pub mod terms;

pub use consts::{SemiEmpConsts, COEFF_DENOMINATOR};
pub use factors::{term_factors, TermFactors};
pub use nuclide::{check_nuclide, neutron_number, SemfError};
pub use pairing::pairing_sign;
pub use terms::{asymmetry_factor, coulomb_factor};
