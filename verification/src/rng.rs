//! The random draws the game rules make.

use vstd::prelude::*;
use rand::Rng;

verus! {

/// `rand::Rng::gen_range(0..n)` on the thread-local generator: a value in
/// `0..n`, chosen at random (the call panics when the range is empty, which
/// `requires` rules out). Which value comes back is not stated.
#[verifier::external_body]
pub(crate) fn thread_random_below(n: u32) -> (r: u32)
    requires
        n > 0,
    ensures
        r < n,
{
    rand::thread_rng().gen_range(0..n)
}

/// `macroquad::rand::gen_range(low, high)` on `u32`: scales a 32-bit random
/// number into `low..high` through `f64`; for ranges below 2^20 every
/// result lies in `low..high`. Which value comes back is not stated.
#[verifier::external_body]
pub(crate) fn quad_random_range(low: u32, high: u32) -> (r: u32)
    requires
        low < high,
        high <= 0x10_0000,
    ensures
        low <= r < high,
{
    macroquad::rand::gen_range(low, high)
}

} // verus!
