use rand::seq::SliceRandom;
use vstd::prelude::*;

verus! {

/// Relies on rand's `SliceRandom::choose` with `rand::thread_rng()`: one
/// element of a non-empty slice, picked at random (`None` only when empty).
#[verifier::external_body]
pub(crate) fn choose_token<T>(tokens: &Vec<T>) -> (r: &T)
    requires
        tokens@.len() > 0,
    ensures
        tokens@.contains(*r),
{
    tokens.as_slice().choose(&mut rand::thread_rng()).unwrap()
}

} // verus!
