use vstd::prelude::*;
use rand::rngs::ThreadRng;
use rand::RngExt;

verus! {

/// The thread-local random generator of the `rand` crate, carried through
/// verified code as an opaque value.
#[verifier::external_type_specification]
#[verifier::external_body]
pub struct ExThreadRng(ThreadRng);

/// Draws a number uniformly from `0..cota` with `rand`'s
/// `RngExt::random_range` on the generator. `rand` documents that the value lies
/// in the half-open range and that an empty range panics, hence `cota > 0`.
/// Nothing else is stated: the value rests on chance.
#[verifier::external_body]
pub(crate) fn tirar(generador: &mut ThreadRng, cota: u32) -> (r: u32)
    requires
        cota > 0,
    ensures
        r < cota,
{
    generador.random_range(0..cota)
}

} // verus!
