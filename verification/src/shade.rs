//! Random colour channels for the cells that flash while lines clear.
use rand::Rng;
use vstd::prelude::*;

verus! {

/// Calls `rand::thread_rng().gen_range(0..255)`: a number drawn from the
/// thread-local generator in the half-open range 0..255. Which number comes
/// out is left open: it rests on chance.
#[verifier::external_body]
pub(crate) fn random_channel() -> (c: u8)
    ensures
        c < 255,
{
    rand::thread_rng().gen_range(0..255)
}

} // verus!
