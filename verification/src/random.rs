//! The random choices the game makes, drawn from the `rand` crate.
use vstd::prelude::*;
use rand::seq::SliceRandom;

verus! {

/// Picks one element of `items` with `rand::seq::SliceRandom::choose` on the
/// thread-local generator. As `choose` documents, the result is `None`
/// exactly when the slice is empty; otherwise it is some element of the
/// slice. Which element comes back is left to chance and not stated.
#[verifier::external_body]
pub(crate) fn choose_from<T>(items: &[T]) -> (r: Option<&T>)
    ensures
        r is Some <==> items@.len() > 0,
        r matches Some(x) ==> items@.contains(*x),
{
    items.choose(&mut rand::thread_rng())
}

/// A random `u32` from `rand::random`. Any value may come back; nothing is
/// stated of it.
#[verifier::external_body]
pub(crate) fn random_u32() -> (r: u32) {
    rand::random::<u32>()
}

/// A random `bool` from `rand::random`. Either value may come back; nothing
/// is stated of it.
#[verifier::external_body]
pub(crate) fn random_bool() -> (r: bool) {
    rand::random::<bool>()
}

/// A fresh version-4 identifier from `uuid::Uuid::new_v4`, as its 128-bit
/// value. It is random; nothing is stated of it.
#[verifier::external_body]
pub(crate) fn new_uuid() -> (r: u128) {
    uuid::Uuid::new_v4().as_u128()
}

} // verus!
