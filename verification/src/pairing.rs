//! Sign of the pairing term.

use vstd::prelude::*;

verus! {

/// Whether `n` is odd. Holds for negative `n` as well: `n % 2` is the
/// Euclidean remainder.
pub open spec fn is_odd(n: int) -> bool {
    n % 2 != 0
}

/// The pairing sign of a nucleus with mass number `a` and atomic number `z`:
/// `-1` when the neutron number `a - z` and `z` are both odd, `+1` when both
/// are even, `0` when they differ in parity.
pub open spec fn pairing_sign_of(a: int, z: int) -> int {
    let n = a - z;
    if is_odd(n) && is_odd(z) {
        -1
    } else if !is_odd(n) && !is_odd(z) {
        1
    } else {
        0
    }
}

/// Computes the pairing sign from the parities of `z` and of the neutron
/// number `a - z`. The difference is taken over the integers, so `z > a` is
/// no special case.
pub fn pairing_sign(a: u64, z: u64) -> (s: i8)
    ensures
        s == pairing_sign_of(a as int, z as int),
        s == -1 || s == 0 || s == 1,
{
    let z_odd = z % 2 != 0;
    let n_odd = (a % 2 != 0) != z_odd;
    if n_odd && z_odd {
        -1
    } else if !n_odd && !z_odd {
        1
    } else {
        0
    }
}

/// The pairing sign takes no value but -1, 0 and +1.
pub proof fn lemma_pairing_sign_range(a: int, z: int)
    ensures
        pairing_sign_of(a, z) == -1 || pairing_sign_of(a, z) == 0 || pairing_sign_of(a, z) == 1,
{
}

/// The pairing sign is a function of two parities alone: nuclei whose atomic
/// numbers agree in parity and whose neutron numbers agree in parity have the
/// same sign, whatever their sizes.
pub proof fn lemma_pairing_sign_depends_on_parity(a1: int, z1: int, a2: int, z2: int)
    requires
        is_odd(z1) == is_odd(z2),
        is_odd(a1 - z1) == is_odd(a2 - z2),
    ensures
        pairing_sign_of(a1, z1) == pairing_sign_of(a2, z2),
{
}

/// Read off the mass number: an odd mass number has sign 0; an even one has
/// sign +1 with an even atomic number (even-even) and -1 with an odd one
/// (odd-odd).
pub proof fn lemma_pairing_sign_by_mass_parity(a: int, z: int)
    ensures
        is_odd(a) <==> pairing_sign_of(a, z) == 0,
        !is_odd(a) && !is_odd(z) <==> pairing_sign_of(a, z) == 1,
        !is_odd(a) && is_odd(z) <==> pairing_sign_of(a, z) == -1,
{
}

} // verus!
