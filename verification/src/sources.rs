//! The places where the library reaches outside itself: the system clock,
//! the thread-local random number generator and the UUID generator. The
//! contracts in this file are believed, not proved.
use rand::Rng;
use vstd::prelude::*;

verus! {

/// Reads the system clock through `std::time::SystemTime::elapsed`, called on
/// the Unix epoch: the milliseconds that have passed since then, or `None`
/// where the clock stands before the epoch. Nothing is claimed of the value.
#[verifier::external_body]
pub(crate) fn epoch_millis() -> (reading: Option<u128>) {
    match std::time::UNIX_EPOCH.elapsed() {
        Ok(since) => Some(since.as_millis()),
        Err(_) => None,
    }
}

/// The thread-local random number generator of `rand`. Nothing of what is
/// inside it is known to the proofs.
#[verifier::external_type_specification]
#[verifier::external_body]
pub struct ExThreadRng(rand::rngs::ThreadRng);

/// `rand::thread_rng` hands out the generator of the calling thread.
/// Nothing is claimed of it.
pub assume_specification[ rand::thread_rng ]() -> (rng: rand::rngs::ThreadRng)
;

/// Draws a number with `rand::Rng::gen_range` from `rng`. The range
/// `low..high` must not be empty, as `gen_range` panics on an empty one; the
/// draw lies in the range.
#[verifier::external_body]
pub(crate) fn random_in(rng: &mut rand::rngs::ThreadRng, low: u16, high: u16) -> (draw: u16)
    requires
        low < high,
    ensures
        low <= draw < high,
{
    rng.gen_range(low..high)
}

/// Makes a key with `uuid::Uuid::new_v4`, written out by the `Display` impl
/// of `Uuid`. The key is random: nothing is claimed of it.
#[verifier::external_body]
pub(crate) fn fresh_key() -> (key: String) {
    uuid::Uuid::new_v4().to_string()
}

} // verus!
