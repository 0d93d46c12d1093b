use vstd::prelude::*;
use rand::Rng;

verus! {

#[verifier::external_type_specification]
#[verifier::external_body]
pub struct ExWyRand(bevy_rand::prelude::WyRand);

/// Relies on rand's `Rng::gen_range` over `0..3` on a WyRand stream: the
/// value lies in the range, and the stream moves on by one draw.
#[verifier::external_body]
pub(crate) fn draw_choice(rng: &mut bevy_rand::prelude::WyRand) -> (r: u32)
    ensures
        r < 3,
{
    rng.gen_range(0..3u32)
}

} // verus!
