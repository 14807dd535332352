use vstd::prelude::*;

verus! {

/// The seedable generator of `fastrand`, carried through the simulation as an opaque value.
#[verifier::external_type_specification]
#[verifier::external_body]
pub struct ExRng(fastrand::Rng);

/// Relies on `fastrand::Rng::u64` with the range `0..=hi`: it returns a value of that range
/// and never panics, since the range is never empty.
#[verifier::external_body]
pub(crate) fn draw_up_to(rng: &mut fastrand::Rng, hi: u64) -> (r: u64)
    ensures
        r <= hi,
{
    rng.u64(0..=hi)
}

} // verus!
