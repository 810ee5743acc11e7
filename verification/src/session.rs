//! The session state machine's transition relations: what each of the
//! protocol operations does to a session snapshot. Both protocol variants
//! advance through the same phases and share these relations.

use vstd::prelude::*;
use crate::models::{Phase, StateView, BitView, HackerConfig};
use crate::pipeline::{generated_bit_ok, measured_bit_ok, intercepted_bit_ok, readings_indexed};
use crate::sifting::{key_chars, error_count, kept_count, rate_milli_percent};

verus! {

/// The eavesdropper configuration every session starts with.
pub open spec fn default_hacker_config() -> HackerConfig {
    HackerConfig {
        interception_rate_ppm: 500_000,
        measurement_error_rate_ppm: 100_000,
        resend_error_rate_ppm: 100_000,
    }
}

/// A freshly initialized snapshot: no bits, no key, no error, in the
/// preparation phase. The session identifier and start time are whatever
/// the identifier source and the clock supplied.
pub open spec fn fresh_state(post: StateView) -> bool {
    &&& post.alice_bits.len() == 0
    &&& post.bob_bits.len() == 0
    &&& post.intercepted_bits.len() == 0
    &&& post.shared_key.len() == 0
    &&& post.error_rate_milli_percent == 0
    &&& !post.is_hacker_present
    &&& post.phase == Phase::Preparation
    &&& post.end_time == 0
}

/// Generation: the sender's sequence is replaced by `count` well-formed
/// fresh bits, the phase advances to transmission, the start time is
/// re-stamped, and everything else is kept.
pub open spec fn generated_state(
    pre: StateView,
    post: StateView,
    count: int,
    drift_milli_deg: u32,
) -> bool {
    &&& post.alice_bits.len() == count
    &&& (forall|i: int|
        0 <= i < count ==> generated_bit_ok(
            #[trigger] post.alice_bits[i],
            i,
            post.start_time,
            drift_milli_deg,
        ))
    &&& post.phase == Phase::Transmission
    &&& post.bob_bits == pre.bob_bits
    &&& post.shared_key == pre.shared_key
    &&& post.intercepted_bits == pre.intercepted_bits
    &&& post.error_rate_milli_percent == pre.error_rate_milli_percent
    &&& post.is_hacker_present == pre.is_hacker_present
    &&& post.session_id == pre.session_id
    &&& post.end_time == pre.end_time
}

/// Measurement: the receiver's sequence is replaced by one well-formed bit
/// per sender bit, the eavesdropper's readings are recorded (none without
/// an eavesdropper), the phase advances to sifting, and everything else is
/// kept.
pub open spec fn measured_state(pre: StateView, post: StateView, hacker_present: bool) -> bool {
    &&& post.bob_bits.len() == pre.alice_bits.len()
    &&& (forall|i: int|
        0 <= i < post.bob_bits.len() ==> measured_bit_ok(
            #[trigger] post.bob_bits[i],
            i,
            pre.alice_bits[i],
        ))
    &&& (!hacker_present ==> post.intercepted_bits.len() == 0)
    &&& post.intercepted_bits.len() <= pre.alice_bits.len()
    &&& (forall|j: int|
        0 <= j < post.intercepted_bits.len() ==> intercepted_bit_ok(
            #[trigger] post.intercepted_bits[j],
            pre.alice_bits,
        ))
    &&& (exists|ks: Seq<int>| readings_indexed(post.intercepted_bits, pre.alice_bits, ks))
    &&& post.is_hacker_present == hacker_present
    &&& post.phase == Phase::Sifting
    &&& post.alice_bits == pre.alice_bits
    &&& post.shared_key == pre.shared_key
    &&& post.error_rate_milli_percent == pre.error_rate_milli_percent
    &&& post.session_id == pre.session_id
    &&& post.start_time == pre.start_time
    &&& post.end_time == pre.end_time
}

/// Sifting: the shared key becomes the kept sender values in index order,
/// the error rate becomes the fraction of kept positions in error (in
/// thousandths of a percent), the phase advances to the error check, and
/// everything else is kept.
pub open spec fn sifted_state(pre: StateView, post: StateView) -> bool {
    let a = pre.alice_bits;
    let b = pre.bob_bits;
    let n = a.len() as int;
    &&& post.shared_key == key_chars(a, b, n)
    &&& post.error_rate_milli_percent as int == rate_milli_percent(
        error_count(a, b, n),
        kept_count(a, b, n),
    )
    &&& post.error_rate_milli_percent <= 100_000
    &&& post.phase == Phase::ErrorCheck
    &&& post.alice_bits == pre.alice_bits
    &&& post.bob_bits == pre.bob_bits
    &&& post.intercepted_bits == pre.intercepted_bits
    &&& post.is_hacker_present == pre.is_hacker_present
    &&& post.session_id == pre.session_id
    &&& post.start_time == pre.start_time
    &&& post.end_time == pre.end_time
}

/// Completion: the phase advances to complete and the end time is stamped;
/// everything else is kept.
pub open spec fn completed_state(pre: StateView, post: StateView) -> bool {
    &&& post.phase == Phase::Complete
    &&& post.alice_bits == pre.alice_bits
    &&& post.bob_bits == pre.bob_bits
    &&& post.intercepted_bits == pre.intercepted_bits
    &&& post.shared_key == pre.shared_key
    &&& post.error_rate_milli_percent == pre.error_rate_milli_percent
    &&& post.is_hacker_present == pre.is_hacker_present
    &&& post.session_id == pre.session_id
    &&& post.start_time == pre.start_time
}

/// The sifted key holds exactly one character per position where the two
/// sequences used the same basis.
pub proof fn lemma_sifted_key_length(pre: StateView, post: StateView)
    requires
        sifted_state(pre, post),
    ensures
        post.shared_key.len() == kept_count(
            pre.alice_bits,
            pre.bob_bits,
            pre.alice_bits.len() as int,
        ),
{
    crate::sifting::lemma_key_length(pre.alice_bits, pre.bob_bits, pre.alice_bits.len() as int);
}

/// A faithfully transmitted session sifts to a zero error rate: with the
/// baseline channel and no eavesdropper, every kept position agrees, so
/// the reported rate is exactly zero.
pub proof fn lemma_faithful_run_zero_rate(pre: StateView, post: StateView)
    requires
        crate::sifting::faithful_pairs(pre.alice_bits, pre.bob_bits),
        sifted_state(pre, post),
    ensures
        post.error_rate_milli_percent == 0,
{
    crate::sifting::lemma_faithful_sift(pre.alice_bits, pre.bob_bits);
}

} // verus!
