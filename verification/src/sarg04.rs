//! The noise-aware protocol session: a configurable noise model governs
//! photon loss, dark counts, detector inefficiency and polarization drift,
//! and every receiver measurement carries a residual one-percent flip, so
//! exact reception is a statistical rather than a certain matter.

use vstd::prelude::*;
use crate::models::{QuantumBit, SimulationState, HackerConfig, NoiseModel, Phase, StateView,
    bits_view, wf_bits, blank_state, clone_bits};
use crate::pipeline::{generate_bits_vec, measure_all, RESIDUAL_FLIP_PPM};
use crate::sifting::{sift_pairs, error_rate_from_counts, lemma_errors_within_kept};
use crate::session::{default_hacker_config, fresh_state, generated_state, measured_state,
    sifted_state, completed_state};
use crate::entropy::{fresh_session_id, current_millis};

verus! {

/// A session of the noise-aware protocol.
pub struct SARG04Simulator {
    state: SimulationState,
    hacker_config: HackerConfig,
    noise_model: NoiseModel,
}

/// Ghost view of a noise-aware session: its snapshot, its eavesdropper
/// configuration and its noise model.
pub ghost struct Sarg04View {
    pub state: StateView,
    pub hacker_config: HackerConfig,
    pub noise_model: NoiseModel,
}

impl View for SARG04Simulator {
    type V = Sarg04View;

    closed spec fn view(&self) -> Sarg04View {
        Sarg04View {
            state: self.state@,
            hacker_config: self.hacker_config,
            noise_model: self.noise_model,
        }
    }
}

impl SARG04Simulator {
    #[verifier::type_invariant]
    spec fn wf(self) -> bool {
        &&& wf_bits(self.state@.alice_bits)
        &&& wf_bits(self.state@.bob_bits)
        &&& wf_bits(self.state@.intercepted_bits)
    }

    /// Opens a fresh session with the default eavesdropper configuration
    /// and a noise model of all zeros.
    pub fn new() -> (s: Self)
        ensures
            fresh_state(s@.state),
            s@.hacker_config == default_hacker_config(),
            s@.noise_model == (NoiseModel {
                detector_efficiency_ppm: 0,
                dark_count_rate_ppm: 0,
                polarization_drift_milli_deg: 0,
                loss_probability_ppm: 0,
            }),
    {
        let session_id = fresh_session_id("SARG04");
        let start_time: u64 = current_millis();
        SARG04Simulator {
            state: blank_state(session_id, start_time),
            hacker_config: HackerConfig {
                interception_rate_ppm: 500_000,
                measurement_error_rate_ppm: 100_000,
                resend_error_rate_ppm: 100_000,
            },
            noise_model: NoiseModel::default(),
        }
    }

    /// Replaces the noise model; it takes effect on the next generation
    /// (drift) and measurement (loss, dark counts, detector efficiency)
    /// and touches nothing else.
    pub fn configure_noise(&mut self, noise_model: NoiseModel)
        ensures
            final(self)@.noise_model == noise_model,
            final(self)@.state == old(self)@.state,
            final(self)@.hacker_config == old(self)@.hacker_config,
    {
        proof {
            use_type_invariant(&*self);
        }
        self.noise_model = noise_model;
    }

    /// Draws `count` fresh sender bits, stores them, re-stamps the start
    /// time and advances the phase to transmission. Each bit's stored
    /// polarization is its encoding-table angle drifted by the configured
    /// rate times its index.
    pub fn generate_alice_bits(&mut self, count: usize) -> (r: Vec<QuantumBit>)
        ensures
            generated_state(
                old(self)@.state,
                final(self)@.state,
                count as int,
                old(self)@.noise_model.polarization_drift_milli_deg,
            ),
            bits_view(r@) == final(self)@.state.alice_bits,
            final(self)@.hacker_config == old(self)@.hacker_config,
            final(self)@.noise_model == old(self)@.noise_model,
    {
        proof {
            use_type_invariant(&*self);
        }
        let now: u64 = current_millis();
        let bits = generate_bits_vec(count, now, self.noise_model.polarization_drift_milli_deg);
        let out = clone_bits(&bits);
        self.state.alice_bits = bits;
        self.state.phase = Phase::Transmission;
        self.state.start_time = now;
        out
    }

    /// Sends the stored sender bits through the measurement pipeline under
    /// the configured noise model and the residual detector flip, stores
    /// the receiver's sequence and the eavesdropper's readings, and
    /// advances the phase to sifting.
    pub fn measure_bits(&mut self, hacker_present: bool) -> (r: Vec<QuantumBit>)
        ensures
            measured_state(old(self)@.state, final(self)@.state, hacker_present),
            bits_view(r@) == final(self)@.state.bob_bits,
            final(self)@.hacker_config == old(self)@.hacker_config,
            final(self)@.noise_model == old(self)@.noise_model,
    {
        proof {
            use_type_invariant(&*self);
        }
        let (bob, readings) = measure_all(
            &self.state.alice_bits,
            hacker_present,
            &self.hacker_config,
            &self.noise_model,
            RESIDUAL_FLIP_PPM,
        );
        let out = clone_bits(&bob);
        self.state.bob_bits = bob;
        self.state.intercepted_bits = readings;
        self.state.is_hacker_present = hacker_present;
        self.state.phase = Phase::Sifting;
        out
    }

    /// Compares the stored sequences basis by basis, stores the sifted key
    /// and the error rate, and advances the phase to the error check. The
    /// sifting rule is the same basis-equality rule as the baseline
    /// protocol's.
    pub fn sift_key(&mut self) -> (r: String)
        ensures
            sifted_state(old(self)@.state, final(self)@.state),
            r@ == final(self)@.state.shared_key,
            final(self)@.hacker_config == old(self)@.hacker_config,
            final(self)@.noise_model == old(self)@.noise_model,
    {
        proof {
            use_type_invariant(&*self);
        }
        let (key, errors, kept) = sift_pairs(&self.state.alice_bits, &self.state.bob_bits);
        proof {
            lemma_errors_within_kept(
                self.state@.alice_bits,
                self.state@.bob_bits,
                self.state@.alice_bits.len() as int,
            );
        }
        let rate = error_rate_from_counts(errors, kept);
        let out = key.clone();
        self.state.shared_key = key;
        self.state.error_rate_milli_percent = rate;
        self.state.phase = Phase::ErrorCheck;
        out
    }

    /// Stamps the end time, advances the phase to complete, and returns
    /// the final snapshot.
    pub fn complete_simulation(&mut self) -> (r: SimulationState)
        ensures
            completed_state(old(self)@.state, final(self)@.state),
            r@ == final(self)@.state,
            final(self)@.hacker_config == old(self)@.hacker_config,
            final(self)@.noise_model == old(self)@.noise_model,
    {
        proof {
            use_type_invariant(&*self);
        }
        let end_time: u64 = current_millis();
        self.state.phase = Phase::Complete;
        self.state.end_time = end_time;
        self.state.clone()
    }

    /// Reinitializes the whole snapshot under a freshly drawn session
    /// identifier, discarding all bits, the key and the error rate. The
    /// eavesdropper configuration and the noise model are kept.
    pub fn reset(&mut self)
        ensures
            fresh_state(final(self)@.state),
            final(self)@.hacker_config == old(self)@.hacker_config,
            final(self)@.noise_model == old(self)@.noise_model,
    {
        proof {
            use_type_invariant(&*self);
        }
        let session_id = fresh_session_id("SARG04");
        let start_time: u64 = current_millis();
        self.state = blank_state(session_id, start_time);
    }

    /// Replaces the eavesdropper configuration; it takes effect on the
    /// next measurement and touches nothing else.
    pub fn configure_hacker(&mut self, config: HackerConfig)
        ensures
            final(self)@.hacker_config == config,
            final(self)@.state == old(self)@.state,
            final(self)@.noise_model == old(self)@.noise_model,
    {
        proof {
            use_type_invariant(&*self);
        }
        self.hacker_config = config;
    }

    /// Returns a snapshot of the current state without mutating anything:
    /// two calls with no operation in between return identical snapshots.
    pub fn get_state(&self) -> (r: SimulationState)
        ensures
            r@ == self@.state,
    {
        self.state.clone()
    }
}

} // verus!
