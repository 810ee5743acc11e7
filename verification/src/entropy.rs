//! The session's only contact with the outside world: random draws, the
//! clock, fresh session identifiers, and rendering bit identifiers.

use vstd::prelude::*;
use crate::models::decimal_of;
use crate::PPM_SCALE;

verus! {

/// Relies on `rand::random::<u32>`: draws a uniformly distributed 32-bit
/// value from the thread-local generator. Nothing can be promised of a
/// random value.
#[verifier::external_body]
pub(crate) fn random_u32() -> u32 {
    rand::random::<u32>()
}

/// Relies on `std::time::SystemTime::now` and `Duration::as_millis`: the
/// milliseconds since the Unix epoch, or zero if the clock reads earlier
/// than the epoch. Nothing can be promised of the clock.
#[verifier::external_body]
pub(crate) fn current_millis() -> u64 {
    std::time::SystemTime::now()
        .duration_since(std::time::UNIX_EPOCH)
        .map(|d| d.as_millis() as u64)
        .unwrap_or(0)
}

/// Relies on `uuid::Uuid::new_v4` and `format!`: a fresh random version-4
/// identifier rendered after the given prefix and a hyphen. The identifier
/// is random, so nothing is promised of the result.
#[verifier::external_body]
pub(crate) fn fresh_session_id(prefix: &str) -> String {
    format!("{}-{}", prefix, uuid::Uuid::new_v4())
}

/// Relies on `format!` (std's `Display` for `usize`): renders the index as
/// its decimal digits after the prefix.
#[verifier::external_body]
pub(crate) fn make_bit_id(prefix: &str, i: usize) -> (r: String)
    ensures
        r@ == prefix@ + decimal_of(i as int),
{
    format!("{}{}", prefix, i)
}

/// A uniform draw below `PPM_SCALE`, to be compared against a rate: the
/// draw is below a rate of `p` parts per million with probability `p / PPM_SCALE`.
pub(crate) fn draw_ppm() -> (r: u32)
    ensures
        r < PPM_SCALE,
{
    random_u32() % PPM_SCALE
}

} // verus!
