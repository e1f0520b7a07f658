use vstd::prelude::*;

use rand::Rng;

verus! {

/// Relies on rand's `thread_rng` and `gen_range`: a value drawn uniformly
/// from the half-open range, here 500 to 1000 milliseconds. Nothing else is
/// assumed of the draw.
#[verifier::external_body]
pub fn jitter_ms() -> (r: u64)
    ensures
        500 <= r < 1000,
{
    rand::thread_rng().gen_range(500..1000)
}

/// Relies on rand's `Alphanumeric` distribution: every sampled byte is an
/// ASCII letter or digit, so the password is twelve ASCII alphanumeric
/// characters. Nothing else is assumed of the draw.
#[verifier::external_body]
pub fn random_password() -> (r: String)
    ensures
        r@.len() == 12,
{
    rand::thread_rng()
        .sample_iter(&rand::distributions::Alphanumeric)
        .take(12)
        .map(char::from)
        .collect()
}

} // verus!
