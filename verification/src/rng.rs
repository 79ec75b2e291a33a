//! The one random draw the simulation makes: a small index used to pick
//! a spawn lane class or a spawn approach.

use vstd::prelude::*;

verus! {

/// Relies on macroquad::rand::gen_range (quad_rand's pseudo-random
/// generator): called with a low bound of zero and a small positive high
/// bound, it returns a value below the high bound. Nothing more is
/// assumed: the draw depends on the generator's process-wide state.
#[verifier::external_body]
pub(crate) fn gen_below(n: u32) -> (r: u32)
    requires
        1 <= n <= 1000,
    ensures
        r < n,
{
    macroquad::rand::gen_range(0u32, n)
}

} // verus!
