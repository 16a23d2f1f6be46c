//! The two random draws that breeding needs, taken from the thread-local
//! generator of the `rand` crate.

use rand::Rng;
use vstd::prelude::*;

verus! {

/// Calls `rand::thread_rng` and `Rng::gen_ratio` with one chance in two.
/// Nothing is claimed of the result: either value may come.
#[verifier::external_body]
pub(crate) fn pile_ou_face() -> (r: bool) {
    rand::thread_rng().gen_ratio(1, 2)
}

/// Calls `rand::thread_rng` and `Rng::gen_range` on the range `0..n`, which
/// must not be empty. The result lies in that range; which of its values
/// comes is not claimed.
#[verifier::external_body]
pub(crate) fn indice_au_hasard(n: usize) -> (r: usize)
    requires
        n > 0,
    ensures
        r < n,
{
    rand::thread_rng().gen_range(0..n)
}

} // verus!
