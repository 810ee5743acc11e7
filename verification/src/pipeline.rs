//! The per-bit protocol semantics: the polarization encoding table, the
//! drift and timestamp arithmetic, bit generation, and the measurement
//! pipeline (loss, dark counts, eavesdropper interception, receiver
//! measurement), each as a function of the random draws it consumes.

use vstd::prelude::*;
use crate::models::{Basis, BitView, QuantumBit, HackerConfig, NoiseModel, alice_id, bob_id,
    hacker_id, bits_view, wf_bits};
use crate::entropy::{draw_ppm, make_bit_id};
use crate::PPM_SCALE;

verus! {

/// The threshold of a fair coin over draws below `PPM_SCALE`.
pub const HALF_PPM: u32 = 500_000;

/// The milliseconds between two consecutive sender bits.
pub const BIT_TIME_STEP: u64 = 100;

/// The milliseconds between a sender bit and its reception.
pub const RECEIVE_DELAY: u64 = 50;

/// The residual detector flip of the noise-aware protocol variant: one
/// percent, applied after every receiver measurement.
pub const RESIDUAL_FLIP_PPM: u32 = 10_000;

/// The classical bit opposite to `v`.
pub open spec fn flipped(v: u8) -> u8 {
    if v == 0 {
        1
    } else {
        0
    }
}

/// A fair coin read as a bit value.
pub open spec fn coin_value(roll: u32) -> u8 {
    if roll < HALF_PPM {
        0
    } else {
        1
    }
}

/// A fair coin read as an encoding basis.
pub open spec fn coin_basis(roll: u32) -> Basis {
    if roll < HALF_PPM {
        Basis::Rectilinear
    } else {
        Basis::Diagonal
    }
}

/// The fixed encoding table from a basis and a bit value to a polarization
/// angle in degrees.
pub open spec fn pol_of(basis: Basis, value: u8) -> u16 {
    match basis {
        Basis::Rectilinear => if value == 0 {
            0
        } else if value == 1 {
            90
        } else {
            0
        },
        Basis::Diagonal => if value == 0 {
            45
        } else if value == 1 {
            135
        } else {
            0
        },
    }
}

/// The polarization after drift: the base angle plus `drift_milli_deg / 1000`
/// degrees per unit of index, rounded to the nearest degree, modulo 180.
pub open spec fn drift_spec(pol: u16, drift_milli_deg: u32, i: int) -> u16 {
    ((((pol * 1000 + 500 + drift_milli_deg * i) / 1000) % 180) as u16)
}

/// The timestamp of the sender bit at index `i`, stepping from `now` and
/// saturating at the largest representable time.
pub open spec fn stamp_spec(now: u64, i: int) -> u64 {
    if now + BIT_TIME_STEP * i <= u64::MAX {
        (now + BIT_TIME_STEP * i) as u64
    } else {
        u64::MAX
    }
}

/// The reception timestamp for a sender bit sent at `ts`, saturating at the
/// largest representable time.
pub open spec fn receive_stamp(ts: u64) -> u64 {
    if ts + RECEIVE_DELAY <= u64::MAX {
        (ts + RECEIVE_DELAY) as u64
    } else {
        u64::MAX
    }
}

/// The exec encoding table.
pub fn polarization_for(basis: Basis, value: u8) -> (r: u16)
    ensures
        r == pol_of(basis, value),
{
    match basis {
        Basis::Rectilinear => if value == 0 {
            0
        } else if value == 1 {
            90
        } else {
            0
        },
        Basis::Diagonal => if value == 0 {
            45
        } else if value == 1 {
            135
        } else {
            0
        },
    }
}

/// The exec drift computation, carried out in 128-bit arithmetic so no
/// input can overflow it.
pub fn apply_drift(pol: u16, drift_milli_deg: u32, i: usize) -> (r: u16)
    ensures
        r == drift_spec(pol, drift_milli_deg, i as int),
{
    proof {
        vstd::arithmetic::mul::lemma_mul_upper_bound(
            drift_milli_deg as int,
            u32::MAX as int,
            i as int,
            usize::MAX as int,
        );
    }
    let t: u128 = (pol as u128) * 1000 + 500 + (drift_milli_deg as u128) * (i as u128);
    ((t / 1000) % 180) as u16
}

/// The exec sender timestamp.
pub fn stamp_at(now: u64, i: usize) -> (r: u64)
    ensures
        r == stamp_spec(now, i as int),
{
    let t: u128 = (now as u128) + (BIT_TIME_STEP as u128) * (i as u128);
    if t <= u64::MAX as u128 {
        t as u64
    } else {
        u64::MAX
    }
}

/// The exec reception timestamp.
pub fn receive_stamp_at(ts: u64) -> (r: u64)
    ensures
        r == receive_stamp(ts),
{
    if ts <= u64::MAX - RECEIVE_DELAY {
        ts + RECEIVE_DELAY
    } else {
        u64::MAX
    }
}

/// What `generate` makes of one index, as a function of the two random
/// draws it consumes: a uniform bit value, a uniform basis, the encoded
/// polarization after drift, and a stepped timestamp.
pub open spec fn generate_one_spec(
    i: int,
    now: u64,
    drift_milli_deg: u32,
    value_roll: u32,
    basis_roll: u32,
) -> BitView {
    let value = coin_value(value_roll);
    let basis = coin_basis(basis_roll);
    BitView {
        id: alice_id(i),
        value,
        basis,
        polarization: drift_spec(pol_of(basis, value), drift_milli_deg, i),
        timestamp: stamp_spec(now, i),
    }
}

/// Builds the sender bit at index `i` from the two given draws.
pub fn generate_one(i: usize, now: u64, drift_milli_deg: u32, value_roll: u32, basis_roll: u32)
    -> (b: QuantumBit)
    ensures
        b@ == generate_one_spec(i as int, now, drift_milli_deg, value_roll, basis_roll),
{
    let value: u8 = if value_roll < HALF_PPM {
        0
    } else {
        1
    };
    let basis = if basis_roll < HALF_PPM {
        Basis::Rectilinear
    } else {
        Basis::Diagonal
    };
    QuantumBit {
        id: make_bit_id("alice-", i),
        value,
        basis,
        polarization: apply_drift(polarization_for(basis, value), drift_milli_deg, i),
        timestamp: stamp_at(now, i),
    }
}

/// The random draws one bit consumes on its way through the measurement
/// pipeline. Draws below `PPM_SCALE` are uniform; the pipeline's meaning is
/// fixed for every combination of values.
#[derive(Clone, Copy, Debug, PartialEq, Eq, Structural)]
pub struct MeasureDraws {
    pub loss_roll: u32,
    pub dark_roll: u32,
    pub dark_basis_roll: u32,
    pub dark_value_roll: u32,
    pub intercept_roll: u32,
    pub hacker_basis_roll: u32,
    pub hacker_flip_roll: u32,
    pub hacker_guess_roll: u32,
    pub resend_roll: u32,
    pub resend_value_roll: u32,
    pub bob_basis_roll: u32,
    pub detector_roll: u32,
    pub bob_guess_roll: u32,
    pub residual_roll: u32,
}

/// All draws are below `PPM_SCALE`, as `sample_measure_draws` produces them.
pub open spec fn draws_in_range(d: MeasureDraws) -> bool {
    &&& d.loss_roll < PPM_SCALE
    &&& d.dark_roll < PPM_SCALE
    &&& d.dark_basis_roll < PPM_SCALE
    &&& d.dark_value_roll < PPM_SCALE
    &&& d.intercept_roll < PPM_SCALE
    &&& d.hacker_basis_roll < PPM_SCALE
    &&& d.hacker_flip_roll < PPM_SCALE
    &&& d.hacker_guess_roll < PPM_SCALE
    &&& d.resend_roll < PPM_SCALE
    &&& d.resend_value_roll < PPM_SCALE
    &&& d.bob_basis_roll < PPM_SCALE
    &&& d.detector_roll < PPM_SCALE
    &&& d.bob_guess_roll < PPM_SCALE
    &&& d.residual_roll < PPM_SCALE
}

/// Draws a full set of pipeline rolls.
pub(crate) fn sample_measure_draws() -> (d: MeasureDraws)
    ensures
        draws_in_range(d),
{
    MeasureDraws {
        loss_roll: draw_ppm(),
        dark_roll: draw_ppm(),
        dark_basis_roll: draw_ppm(),
        dark_value_roll: draw_ppm(),
        intercept_roll: draw_ppm(),
        hacker_basis_roll: draw_ppm(),
        hacker_flip_roll: draw_ppm(),
        hacker_guess_roll: draw_ppm(),
        resend_roll: draw_ppm(),
        resend_value_roll: draw_ppm(),
        bob_basis_roll: draw_ppm(),
        detector_roll: draw_ppm(),
        bob_guess_roll: draw_ppm(),
        residual_roll: draw_ppm(),
    }
}

/// What the measurement pipeline makes of one sender bit, as a function of
/// the draws. In order: photon loss emits a fixed placeholder; a dark count
/// emits an independent spurious detection; an eavesdropper (when present)
/// measures in its own basis, records its reading, and re-sends a photon in
/// that basis; the receiver measures in its own basis, subject to detector
/// inefficiency and a residual flip. The second component is the
/// eavesdropper's recorded reading, if any.
pub open spec fn measure_one_spec(
    a: BitView,
    index: int,
    hacker_present: bool,
    cfg: HackerConfig,
    noise: NoiseModel,
    residual_flip_ppm: u32,
    d: MeasureDraws,
) -> (BitView, Option<BitView>) {
    if d.loss_roll < noise.loss_probability_ppm {
        (
            BitView {
                id: bob_id(index),
                value: 0,
                basis: Basis::Rectilinear,
                polarization: 0,
                timestamp: receive_stamp(a.timestamp),
            },
            None,
        )
    } else if d.dark_roll < noise.dark_count_rate_ppm {
        let basis = coin_basis(d.dark_basis_roll);
        let value = coin_value(d.dark_value_roll);
        (
            BitView {
                id: bob_id(index),
                value,
                basis,
                polarization: pol_of(basis, value),
                timestamp: receive_stamp(a.timestamp),
            },
            None,
        )
    } else {
        let intercepting = hacker_present && d.intercept_roll < cfg.interception_rate_ppm;
        let hacker_basis = coin_basis(d.hacker_basis_roll);
        let hacker_value = if hacker_basis == a.basis {
            if d.hacker_flip_roll < cfg.measurement_error_rate_ppm {
                flipped(a.value)
            } else {
                a.value
            }
        } else {
            let guess = coin_value(d.hacker_guess_roll);
            if d.hacker_flip_roll < cfg.measurement_error_rate_ppm {
                flipped(guess)
            } else {
                guess
            }
        };
        let resend_value = if d.resend_roll < cfg.resend_error_rate_ppm {
            coin_value(d.resend_value_roll)
        } else {
            hacker_value
        };
        let effective_basis = if intercepting {
            hacker_basis
        } else {
            a.basis
        };
        let effective_value = if intercepting {
            resend_value
        } else {
            a.value
        };
        let reading = if intercepting {
            Some(
                BitView {
                    id: hacker_id(index),
                    value: hacker_value,
                    basis: hacker_basis,
                    polarization: a.polarization,
                    timestamp: a.timestamp,
                },
            )
        } else {
            None
        };
        let bob_basis = coin_basis(d.bob_basis_roll);
        let raw_value = if d.detector_roll >= noise.detector_efficiency_ppm {
            coin_value(d.bob_guess_roll)
        } else if bob_basis == effective_basis {
            effective_value
        } else {
            coin_value(d.bob_guess_roll)
        };
        let value = if d.residual_roll < residual_flip_ppm {
            flipped(raw_value)
        } else {
            raw_value
        };
        (
            BitView {
                id: bob_id(index),
                value,
                basis: bob_basis,
                polarization: pol_of(bob_basis, value),
                timestamp: receive_stamp(a.timestamp),
            },
            reading,
        )
    }
}

/// The view of an optional bit.
pub open spec fn opt_bit_view(o: Option<QuantumBit>) -> Option<BitView> {
    match o {
        Some(b) => Some(b@),
        None => None,
    }
}

/// Sends one sender bit through the measurement pipeline with the given
/// draws, returning the receiver's bit and the eavesdropper's recorded
/// reading, if any.
pub fn measure_one(
    a: &QuantumBit,
    index: usize,
    hacker_present: bool,
    cfg: &HackerConfig,
    noise: &NoiseModel,
    residual_flip_ppm: u32,
    d: &MeasureDraws,
) -> (r: (QuantumBit, Option<QuantumBit>))
    ensures
        r.0@ == measure_one_spec(
            a@,
            index as int,
            hacker_present,
            *cfg,
            *noise,
            residual_flip_ppm,
            *d,
        ).0,
        opt_bit_view(r.1) == measure_one_spec(
            a@,
            index as int,
            hacker_present,
            *cfg,
            *noise,
            residual_flip_ppm,
            *d,
        ).1,
{
    if d.loss_roll < noise.loss_probability_ppm {
        let bob = QuantumBit {
            id: make_bit_id("bob-", index),
            value: 0,
            basis: Basis::Rectilinear,
            polarization: 0,
            timestamp: receive_stamp_at(a.timestamp),
        };
        return (bob, None);
    }
    if d.dark_roll < noise.dark_count_rate_ppm {
        let basis = if d.dark_basis_roll < HALF_PPM {
            Basis::Rectilinear
        } else {
            Basis::Diagonal
        };
        let value: u8 = if d.dark_value_roll < HALF_PPM {
            0
        } else {
            1
        };
        let bob = QuantumBit {
            id: make_bit_id("bob-", index),
            value,
            basis,
            polarization: polarization_for(basis, value),
            timestamp: receive_stamp_at(a.timestamp),
        };
        return (bob, None);
    }
    let intercepting = hacker_present && d.intercept_roll < cfg.interception_rate_ppm;
    let mut effective_basis = a.basis;
    let mut effective_value: u8 = a.value;
    let mut reading: Option<QuantumBit> = None;
    if intercepting {
        let hacker_basis = if d.hacker_basis_roll < HALF_PPM {
            Basis::Rectilinear
        } else {
            Basis::Diagonal
        };
        let hacker_value: u8 = if hacker_basis == a.basis {
            if d.hacker_flip_roll < cfg.measurement_error_rate_ppm {
                if a.value == 0 {
                    1
                } else {
                    0
                }
            } else {
                a.value
            }
        } else {
            let guess: u8 = if d.hacker_guess_roll < HALF_PPM {
                0
            } else {
                1
            };
            if d.hacker_flip_roll < cfg.measurement_error_rate_ppm {
                if guess == 0 {
                    1
                } else {
                    0
                }
            } else {
                guess
            }
        };
        let resend_value: u8 = if d.resend_roll < cfg.resend_error_rate_ppm {
            if d.resend_value_roll < HALF_PPM {
                0
            } else {
                1
            }
        } else {
            hacker_value
        };
        reading = Some(
            QuantumBit {
                id: make_bit_id("hacker-", index),
                value: hacker_value,
                basis: hacker_basis,
                polarization: a.polarization,
                timestamp: a.timestamp,
            },
        );
        effective_basis = hacker_basis;
        effective_value = resend_value;
    }
    let bob_basis = if d.bob_basis_roll < HALF_PPM {
        Basis::Rectilinear
    } else {
        Basis::Diagonal
    };
    let raw_value: u8 = if d.detector_roll >= noise.detector_efficiency_ppm {
        if d.bob_guess_roll < HALF_PPM {
            0
        } else {
            1
        }
    } else if bob_basis == effective_basis {
        effective_value
    } else {
        if d.bob_guess_roll < HALF_PPM {
            0
        } else {
            1
        }
    };
    let value: u8 = if d.residual_roll < residual_flip_ppm {
        if raw_value == 0 {
            1
        } else {
            0
        }
    } else {
        raw_value
    };
    let bob = QuantumBit {
        id: make_bit_id("bob-", index),
        value,
        basis: bob_basis,
        polarization: polarization_for(bob_basis, value),
        timestamp: receive_stamp_at(a.timestamp),
    };
    (bob, reading)
}

/// The encoding table maps the four (basis, value) pairs to the four
/// polarization angles: rectilinear encodes 0 at 0 degrees and 1 at 90,
/// diagonal encodes 0 at 45 and 1 at 135; distinct pairs get distinct
/// angles.
pub proof fn lemma_encoding_table(basis: Basis, value: u8)
    requires
        value <= 1,
    ensures
        pol_of(Basis::Rectilinear, 0) == 0,
        pol_of(Basis::Rectilinear, 1) == 90,
        pol_of(Basis::Diagonal, 0) == 45,
        pol_of(Basis::Diagonal, 1) == 135,
        pol_of(basis, value) == 0 || pol_of(basis, value) == 45 || pol_of(basis, value) == 90
            || pol_of(basis, value) == 135,
        forall|b2: Basis, v2: u8|
            v2 <= 1 && #[trigger] pol_of(b2, v2) == pol_of(basis, value) ==> b2 == basis && v2
                == value,
{
}

/// With no drift configured, the stored polarization is the bare encoding
/// table angle.
pub proof fn lemma_no_drift(pol: u16, i: int)
    requires
        pol < 180,
    ensures
        drift_spec(pol, 0, i) == pol,
{
    vstd::arithmetic::div_mod::lemma_div_multiples_vanish_fancy(pol as int, 500, 1000);
    assert(1000 * pol == pol * 1000) by (nonlinear_arith);
    vstd::arithmetic::div_mod::lemma_small_mod(pol as nat, 180);
}

/// What a generated bit always satisfies, whatever the draws: a classical
/// value, the drifted table polarization for its basis and value, the
/// sender identifier for its index, and the stepped timestamp.
pub open spec fn generated_bit_ok(b: BitView, i: int, now: u64, drift_milli_deg: u32) -> bool {
    &&& b.value <= 1
    &&& b.polarization == drift_spec(pol_of(b.basis, b.value), drift_milli_deg, i)
    &&& b.polarization < 180
    &&& b.id == alice_id(i)
    &&& b.timestamp == stamp_spec(now, i)
}

/// Every outcome of the two generation draws is well-formed.
pub proof fn lemma_generate_one_wf(i: int, now: u64, drift_milli_deg: u32, value_roll: u32,
    basis_roll: u32)
    ensures
        generated_bit_ok(
            generate_one_spec(i, now, drift_milli_deg, value_roll, basis_roll),
            i,
            now,
            drift_milli_deg,
        ),
{
    let b = generate_one_spec(i, now, drift_milli_deg, value_roll, basis_roll);
    let base = pol_of(b.basis, b.value) as int;
    vstd::arithmetic::div_mod::lemma_mod_bound(
        (base * 1000 + 500 + drift_milli_deg * i) / 1000,
        180,
    );
}

/// Sender timestamps never decrease along the sequence: each bit is
/// stamped a fixed step after the one before it, until the clock range
/// saturates.
pub proof fn lemma_stamps_monotone(now: u64, i: int, j: int)
    requires
        0 <= i <= j,
    ensures
        stamp_spec(now, i) <= stamp_spec(now, j),
{
    vstd::arithmetic::mul::lemma_mul_inequality(i, j, BIT_TIME_STEP as int);
    assert(i * BIT_TIME_STEP == BIT_TIME_STEP * i) by (nonlinear_arith);
    assert(j * BIT_TIME_STEP == BIT_TIME_STEP * j) by (nonlinear_arith);
}

/// A bit generated without drift carries exactly its encoding-table angle,
/// one of the four legal polarizations.
pub proof fn lemma_generated_bit_encoding(b: BitView, i: int, now: u64)
    requires
        generated_bit_ok(b, i, now, 0),
    ensures
        b.polarization == pol_of(b.basis, b.value),
        b.polarization == 0 || b.polarization == 45 || b.polarization == 90 || b.polarization
            == 135,
{
    lemma_encoding_table(b.basis, b.value);
    lemma_no_drift(pol_of(b.basis, b.value), i);
}

/// What a receiver bit always satisfies, whatever the draws: a classical
/// value (given a classical sender bit), the table polarization for its
/// basis and value, the receiver identifier for its index, and the
/// reception timestamp.
pub open spec fn measured_bit_ok(b: BitView, i: int, a: BitView) -> bool {
    &&& b.value <= 1
    &&& b.polarization == pol_of(b.basis, b.value)
    &&& b.id == bob_id(i)
    &&& b.timestamp == receive_stamp(a.timestamp)
}

/// What an eavesdropper reading always satisfies: it is tagged with the
/// index of some sender bit and carries that bit's polarization and
/// timestamp, with a classical value of its own.
pub open spec fn intercepted_bit_ok(b: BitView, a: Seq<BitView>) -> bool {
    exists|k: int|
        0 <= k < a.len() && b.id == hacker_id(k) && b.value <= 1 && b.polarization
            == a[k].polarization && b.timestamp == a[k].timestamp
}

/// The eavesdropper's readings are a compaction of a strictly increasing
/// sequence of intercepted sender indices: reading `j` is tagged with index
/// `ks[j]` and carries that sender bit's polarization and timestamp.
pub open spec fn readings_indexed(r: Seq<BitView>, a: Seq<BitView>, ks: Seq<int>) -> bool {
    &&& ks.len() == r.len()
    &&& (forall|j: int|
        0 <= j < ks.len() ==> 0 <= #[trigger] ks[j] < a.len() && r[j].id == hacker_id(ks[j])
            && r[j].value <= 1 && r[j].polarization == a[ks[j]].polarization && r[j].timestamp
            == a[ks[j]].timestamp)
    &&& (forall|j: int| 0 < j < ks.len() ==> #[trigger] ks[j - 1] < ks[j])
}

/// Every outcome of the measurement draws is well-formed, and without an
/// eavesdropper nothing is recorded.
pub proof fn lemma_measure_one_wf(
    a: BitView,
    index: int,
    hacker_present: bool,
    cfg: HackerConfig,
    noise: NoiseModel,
    residual_flip_ppm: u32,
    d: MeasureDraws,
)
    requires
        a.value <= 1,
    ensures
        ({
            let r = measure_one_spec(a, index, hacker_present, cfg, noise, residual_flip_ppm, d);
            &&& measured_bit_ok(r.0, index, a)
            &&& (r.1 matches Some(h) ==> h.id == hacker_id(index) && h.value <= 1
                && h.polarization == a.polarization && h.timestamp == a.timestamp)
            &&& (!hacker_present ==> r.1 is None)
        }),
{
}

/// A channel with no loss, no dark counts, a fully efficient detector and
/// no residual flip.
pub open spec fn pristine_channel(noise: NoiseModel, residual_flip_ppm: u32) -> bool {
    &&& noise.loss_probability_ppm == 0
    &&& noise.dark_count_rate_ppm == 0
    &&& noise.detector_efficiency_ppm == PPM_SCALE
    &&& residual_flip_ppm == 0
}

/// Faithful reception: over a pristine channel without an eavesdropper,
/// whenever the receiver's basis agrees with the sender's, the received
/// value is exactly the sent value.
pub proof fn lemma_faithful_reception(
    a: BitView,
    index: int,
    cfg: HackerConfig,
    noise: NoiseModel,
    residual_flip_ppm: u32,
    d: MeasureDraws,
)
    requires
        pristine_channel(noise, residual_flip_ppm),
        draws_in_range(d),
    ensures
        ({
            let r = measure_one_spec(a, index, false, cfg, noise, residual_flip_ppm, d).0;
            &&& r.basis == a.basis ==> r.value == a.value
            &&& measure_one_spec(a, index, false, cfg, noise, residual_flip_ppm, d).1 is None
        }),
{
}

/// Generates `count` fresh sender bits, drawing a value and a basis for
/// each index.
pub(crate) fn generate_bits_vec(count: usize, now: u64, drift_milli_deg: u32)
    -> (bits: Vec<QuantumBit>)
    ensures
        bits@.len() == count,
        forall|i: int|
            0 <= i < count ==> generated_bit_ok(
                #[trigger] bits_view(bits@)[i],
                i,
                now,
                drift_milli_deg,
            ),
        wf_bits(bits_view(bits@)),
{
    let mut bits: Vec<QuantumBit> = Vec::new();
    let mut i: usize = 0;
    while i < count
        invariant
            i <= count,
            bits@.len() == i,
            forall|j: int|
                0 <= j < i ==> generated_bit_ok((#[trigger] bits@[j])@, j, now, drift_milli_deg),
        decreases count - i,
    {
        let value_roll = draw_ppm();
        let basis_roll = draw_ppm();
        let b = generate_one(i, now, drift_milli_deg, value_roll, basis_roll);
        proof {
            lemma_generate_one_wf(i as int, now, drift_milli_deg, value_roll, basis_roll);
        }
        bits.push(b);
        i += 1;
    }
    proof {
        assert forall|j: int| 0 <= j < count implies generated_bit_ok(
            #[trigger] bits_view(bits@)[j],
            j,
            now,
            drift_milli_deg,
        ) by {
            assert(bits_view(bits@)[j] == bits@[j]@);
        }
    }
    bits
}

/// Sends every sender bit through the measurement pipeline with fresh
/// draws, collecting the receiver's sequence (always of the same length)
/// and the eavesdropper's compacted readings.
pub(crate) fn measure_all(
    alice: &Vec<QuantumBit>,
    hacker_present: bool,
    cfg: &HackerConfig,
    noise: &NoiseModel,
    residual_flip_ppm: u32,
) -> (r: (Vec<QuantumBit>, Vec<QuantumBit>))
    requires
        wf_bits(bits_view(alice@)),
    ensures
        r.0@.len() == alice@.len(),
        forall|i: int|
            0 <= i < alice@.len() ==> measured_bit_ok(
                #[trigger] bits_view(r.0@)[i],
                i,
                bits_view(alice@)[i],
            ),
        wf_bits(bits_view(r.0@)),
        !hacker_present ==> r.1@.len() == 0,
        r.1@.len() <= alice@.len(),
        forall|j: int|
            0 <= j < r.1@.len() ==> intercepted_bit_ok(
                #[trigger] bits_view(r.1@)[j],
                bits_view(alice@),
            ),
        exists|ks: Seq<int>| readings_indexed(bits_view(r.1@), bits_view(alice@), ks),
        wf_bits(bits_view(r.1@)),
        pristine_channel(*noise, residual_flip_ppm) && !hacker_present ==> forall|i: int|
            0 <= i < alice@.len() && (#[trigger] bits_view(r.0@)[i]).basis == bits_view(
                alice@,
            )[i].basis ==> bits_view(r.0@)[i].value == bits_view(alice@)[i].value,
{
    let ghost a = bits_view(alice@);
    let mut bob: Vec<QuantumBit> = Vec::new();
    let mut readings: Vec<QuantumBit> = Vec::new();
    let ghost mut ks: Seq<int> = Seq::empty();
    let mut i: usize = 0;
    while i < alice.len()
        invariant
            i <= alice@.len(),
            a == bits_view(alice@),
            wf_bits(a),
            bob@.len() == i,
            forall|j: int| 0 <= j < i ==> measured_bit_ok((#[trigger] bob@[j])@, j, a[j]),
            !hacker_present ==> readings@.len() == 0,
            readings@.len() <= i,
            forall|j: int|
                0 <= j < readings@.len() ==> intercepted_bit_ok((#[trigger] readings@[j])@, a),
            ks.len() == readings@.len(),
            forall|j: int|
                0 <= j < ks.len() ==> 0 <= #[trigger] ks[j] < i && readings@[j]@.id == hacker_id(
                    ks[j],
                ) && readings@[j]@.value <= 1 && readings@[j]@.polarization
                    == a[ks[j]].polarization && readings@[j]@.timestamp == a[ks[j]].timestamp,
            forall|j: int| 0 < j < ks.len() ==> #[trigger] ks[j - 1] < ks[j],
            pristine_channel(*noise, residual_flip_ppm) && !hacker_present ==> forall|j: int|
                0 <= j < i && (#[trigger] bob@[j])@.basis == a[j].basis ==> bob@[j]@.value
                    == a[j].value,
        decreases alice@.len() - i,
    {
        let d = sample_measure_draws();
        let (bob_bit, reading) = measure_one(
            &alice[i],
            i,
            hacker_present,
            cfg,
            noise,
            residual_flip_ppm,
            &d,
        );
        proof {
            assert(a[i as int] == alice@[i as int]@);
            lemma_measure_one_wf(
                a[i as int],
                i as int,
                hacker_present,
                *cfg,
                *noise,
                residual_flip_ppm,
                d,
            );
            if pristine_channel(*noise, residual_flip_ppm) && !hacker_present {
                lemma_faithful_reception(
                    a[i as int],
                    i as int,
                    *cfg,
                    *noise,
                    residual_flip_ppm,
                    d,
                );
            }
        }
        bob.push(bob_bit);
        match reading {
            Some(h) => {
                readings.push(h);
                proof {
                    ks = ks.push(i as int);
                }
            },
            None => {},
        }
        i += 1;
    }
    proof {
        assert forall|j: int| 0 <= j < alice@.len() implies measured_bit_ok(
            #[trigger] bits_view(bob@)[j],
            j,
            bits_view(alice@)[j],
        ) by {
            assert(bits_view(bob@)[j] == bob@[j]@);
        }
        assert forall|j: int| 0 <= j < readings@.len() implies intercepted_bit_ok(
            #[trigger] bits_view(readings@)[j],
            bits_view(alice@),
        ) by {
            assert(bits_view(readings@)[j] == readings@[j]@);
        }
        assert(readings_indexed(bits_view(readings@), bits_view(alice@), ks)) by {
            assert forall|j: int| 0 <= j < ks.len() implies 0 <= #[trigger] ks[j] < a.len()
                && bits_view(readings@)[j].id == hacker_id(ks[j]) && bits_view(
                readings@,
            )[j].value <= 1 && bits_view(readings@)[j].polarization == a[ks[j]].polarization
                && bits_view(readings@)[j].timestamp == a[ks[j]].timestamp by {
                assert(bits_view(readings@)[j] == readings@[j]@);
            }
        }
        if pristine_channel(*noise, residual_flip_ppm) && !hacker_present {
            assert forall|j: int|
                0 <= j < alice@.len() && (#[trigger] bits_view(bob@)[j]).basis == bits_view(
                    alice@,
                )[j].basis implies bits_view(bob@)[j].value == bits_view(alice@)[j].value by {
                assert(bits_view(bob@)[j] == bob@[j]@);
            }
        }
    }
    (bob, readings)
}

} // verus!
