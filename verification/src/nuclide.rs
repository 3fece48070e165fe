//! Which pairs of mass number and atomic number describe a nucleus.

use vstd::prelude::*;

verus! {

/// Why an evaluation was refused.
#[derive(Clone, Copy, Debug, PartialEq, Eq, Structural)]
pub enum SemfError {
    /// The mass number is zero, or the atomic number exceeds the mass number.
    InvalidInput,
}

/// A nucleus has at least one nucleon and no more protons than nucleons:
/// `1 <= a` and `0 <= z <= a`.
pub open spec fn valid_nuclide(a: int, z: int) -> bool {
    1 <= a && 0 <= z <= a
}

/// The neutron number `N = A - Z`.
pub open spec fn neutrons_of(a: int, z: int) -> int {
    a - z
}

/// Accepts exactly the pairs that satisfy `valid_nuclide`; every other pair
/// is refused as `InvalidInput`.
pub fn check_nuclide(a: u64, z: u64) -> (r: Result<(), SemfError>)
    ensures
        r is Ok <==> valid_nuclide(a as int, z as int),
        r is Err ==> r == Err::<(), SemfError>(SemfError::InvalidInput),
{
    if a >= 1 && z <= a {
        Ok(())
    } else {
        Err(SemfError::InvalidInput)
    }
}

/// The neutron number of a nucleus with `z` of its `a` nucleons protons.
pub fn neutron_number(a: u64, z: u64) -> (n: u64)
    requires
        z <= a,
    ensures
        n == neutrons_of(a as int, z as int),
{
    a - z
}

} // verus!
