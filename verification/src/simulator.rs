//! The baseline protocol session: a noiseless channel, no drift and no
//! residual detector flip, so reception is exact wherever the bases agree.

use vstd::prelude::*;
use crate::models::{QuantumBit, SimulationState, HackerConfig, NoiseModel, Phase, StateView,
    bits_view, wf_bits, blank_state, clone_bits};
use crate::pipeline::{generate_bits_vec, measure_all, pol_of, lemma_no_drift, pristine_channel};
use crate::sifting::{sift_pairs, error_rate_from_counts, faithful_pairs, lemma_errors_within_kept};
use crate::session::{default_hacker_config, fresh_state, generated_state, measured_state,
    sifted_state, completed_state};
use crate::entropy::{fresh_session_id, current_millis};
use crate::PPM_SCALE;

verus! {

/// A session of the baseline protocol.
pub struct BB84Simulator {
    state: SimulationState,
    hacker_config: HackerConfig,
}

/// Ghost view of a baseline session: its snapshot and its eavesdropper
/// configuration.
pub ghost struct Bb84View {
    pub state: StateView,
    pub hacker_config: HackerConfig,
}

impl View for BB84Simulator {
    type V = Bb84View;

    closed spec fn view(&self) -> Bb84View {
        Bb84View { state: self.state@, hacker_config: self.hacker_config }
    }
}

impl BB84Simulator {
    #[verifier::type_invariant]
    spec fn wf(self) -> bool {
        &&& wf_bits(self.state@.alice_bits)
        &&& wf_bits(self.state@.bob_bits)
        &&& wf_bits(self.state@.intercepted_bits)
    }

    /// Opens a fresh session with the default eavesdropper configuration.
    pub fn new() -> (s: Self)
        ensures
            fresh_state(s@.state),
            s@.hacker_config == default_hacker_config(),
    {
        let session_id = fresh_session_id("QKD");
        let start_time: u64 = current_millis();
        BB84Simulator {
            state: blank_state(session_id, start_time),
            hacker_config: HackerConfig {
                interception_rate_ppm: 500_000,
                measurement_error_rate_ppm: 100_000,
                resend_error_rate_ppm: 100_000,
            },
        }
    }

    /// Draws `count` fresh sender bits, stores them, re-stamps the start
    /// time and advances the phase to transmission. Without drift, every
    /// stored polarization is the bare encoding-table angle for the bit's
    /// basis and value.
    pub fn generate_alice_bits(&mut self, count: usize) -> (r: Vec<QuantumBit>)
        ensures
            generated_state(old(self)@.state, final(self)@.state, count as int, 0),
            bits_view(r@) == final(self)@.state.alice_bits,
            forall|i: int|
                0 <= i < count ==> (#[trigger] final(self)@.state.alice_bits[i]).polarization
                    == pol_of(
                    final(self)@.state.alice_bits[i].basis,
                    final(self)@.state.alice_bits[i].value,
                ),
            final(self)@.hacker_config == old(self)@.hacker_config,
    {
        proof {
            use_type_invariant(&*self);
        }
        let now: u64 = current_millis();
        let bits = generate_bits_vec(count, now, 0);
        let out = clone_bits(&bits);
        self.state.alice_bits = bits;
        self.state.phase = Phase::Transmission;
        self.state.start_time = now;
        proof {
            assert forall|i: int|
                0 <= i < count implies (#[trigger] self.state@.alice_bits[i]).polarization
                == pol_of(self.state@.alice_bits[i].basis, self.state@.alice_bits[i].value) by {
                lemma_no_drift(
                    pol_of(self.state@.alice_bits[i].basis, self.state@.alice_bits[i].value),
                    i,
                );
            }
        }
        out
    }

    /// Sends the stored sender bits through the measurement pipeline over
    /// the lossless channel, stores the receiver's sequence and the
    /// eavesdropper's readings, and advances the phase to sifting. Without
    /// an eavesdropper the transmission is faithful: wherever the
    /// receiver's basis agrees with the sender's, the values agree.
    pub fn measure_bits(&mut self, hacker_present: bool) -> (r: Vec<QuantumBit>)
        ensures
            measured_state(old(self)@.state, final(self)@.state, hacker_present),
            bits_view(r@) == final(self)@.state.bob_bits,
            !hacker_present ==> faithful_pairs(
                final(self)@.state.alice_bits,
                final(self)@.state.bob_bits,
            ),
            final(self)@.hacker_config == old(self)@.hacker_config,
    {
        proof {
            use_type_invariant(&*self);
        }
        let noise = NoiseModel {
            detector_efficiency_ppm: PPM_SCALE,
            dark_count_rate_ppm: 0,
            polarization_drift_milli_deg: 0,
            loss_probability_ppm: 0,
        };
        proof {
            assert(pristine_channel(noise, 0));
        }
        let (bob, readings) = measure_all(
            &self.state.alice_bits,
            hacker_present,
            &self.hacker_config,
            &noise,
            0,
        );
        let out = clone_bits(&bob);
        self.state.bob_bits = bob;
        self.state.intercepted_bits = readings;
        self.state.is_hacker_present = hacker_present;
        self.state.phase = Phase::Sifting;
        out
    }

    /// Compares the stored sequences basis by basis, stores the sifted key
    /// and the error rate, and advances the phase to the error check.
    pub fn sift_key(&mut self) -> (r: String)
        ensures
            sifted_state(old(self)@.state, final(self)@.state),
            r@ == final(self)@.state.shared_key,
            final(self)@.hacker_config == old(self)@.hacker_config,
    {
        proof {
            use_type_invariant(&*self);
        }
        let (key, errors, kept) = sift_pairs(&self.state.alice_bits, &self.state.bob_bits);
        proof {
            lemma_errors_within_kept(
                self.state@.alice_bits,
                self.state@.bob_bits,
                self.state@.alice_bits.len() as int,
            );
        }
        let rate = error_rate_from_counts(errors, kept);
        let out = key.clone();
        self.state.shared_key = key;
        self.state.error_rate_milli_percent = rate;
        self.state.phase = Phase::ErrorCheck;
        out
    }

    /// Stamps the end time, advances the phase to complete, and returns
    /// the final snapshot.
    pub fn complete_simulation(&mut self) -> (r: SimulationState)
        ensures
            completed_state(old(self)@.state, final(self)@.state),
            r@ == final(self)@.state,
            final(self)@.hacker_config == old(self)@.hacker_config,
    {
        proof {
            use_type_invariant(&*self);
        }
        let end_time: u64 = current_millis();
        self.state.phase = Phase::Complete;
        self.state.end_time = end_time;
        self.state.clone()
    }

    /// Reinitializes the whole snapshot under a freshly drawn session
    /// identifier, discarding all bits, the key and the error rate. The
    /// eavesdropper configuration is kept.
    pub fn reset(&mut self)
        ensures
            fresh_state(final(self)@.state),
            final(self)@.hacker_config == old(self)@.hacker_config,
    {
        proof {
            use_type_invariant(&*self);
        }
        let session_id = fresh_session_id("QKD");
        let start_time: u64 = current_millis();
        self.state = blank_state(session_id, start_time);
    }

    /// Replaces the eavesdropper configuration; it takes effect on the
    /// next measurement and touches nothing else.
    pub fn configure_hacker(&mut self, config: HackerConfig)
        ensures
            final(self)@.hacker_config == config,
            final(self)@.state == old(self)@.state,
    {
        proof {
            use_type_invariant(&*self);
        }
        self.hacker_config = config;
    }

    /// Returns a snapshot of the current state without mutating anything:
    /// two calls with no operation in between return identical snapshots.
    pub fn get_state(&self) -> (r: SimulationState)
        ensures
            r@ == self@.state,
    {
        self.state.clone()
    }
}

} // verus!
