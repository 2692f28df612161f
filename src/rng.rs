use vstd::prelude::*;

verus! {

/// Relies on rand's `Rng::gen_range` with the thread-local generator: it
/// returns a value of the half-open range `lo..hi`, and panics on an empty one.
#[verifier::external_body]
pub(crate) fn random_in_range(lo: u32, hi: u32) -> (r: u32)
    requires
        lo < hi,
    ensures
        lo <= r < hi,
{
    rand::Rng::gen_range(&mut rand::thread_rng(), lo..hi)
}

} // verus!

verus! {

/// Relies on rand's `SliceRandom::shuffle` with the thread-local generator:
/// it reorders the elements in place (a Fisher-Yates pass of swaps), so the
/// result is a permutation of the input.
#[verifier::external_body]
pub(crate) fn shuffle_strings(v: &mut Vec<String>)
    ensures
        final(v)@.len() == old(v)@.len(),
        final(v)@.to_multiset() == old(v)@.to_multiset(),
{
    rand::seq::SliceRandom::shuffle(v.as_mut_slice(), &mut rand::thread_rng())
}

} // verus!

verus! {

/// Relies on rand's `SliceRandom::choose` with the thread-local generator:
/// `None` for an empty slice, else one of its elements (cloned here).
#[verifier::external_body]
pub(crate) fn choose_string(v: &Vec<String>) -> (r: Option<String>)
    ensures
        r is None <==> v@.len() == 0,
        r matches Some(s) ==> v@.contains(s),
{
    rand::seq::SliceRandom::choose(v.as_slice(), &mut rand::thread_rng()).cloned()
}

} // verus!
