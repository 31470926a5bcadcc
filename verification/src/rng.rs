//! The library's one source of randomness, behind a trusted wrapper.

use vstd::prelude::*;
use rand::Rng;

verus! {

/// Relies on rand::Rng::gen_range over the range `0..n`: it returns a value
/// drawn from that range, so below `n`, and panics only on an empty range,
/// which `n > 0` rules out.
#[verifier::external_body]
pub(crate) fn random_below(n: u32) -> (r: u32)
    requires
        n > 0,
    ensures
        r < n,
{
    rand::thread_rng().gen_range(0..n)
}

} // verus!
