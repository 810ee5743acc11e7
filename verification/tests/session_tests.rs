use qkd_simulator::{BB84Simulator, SARG04Simulator, Basis, Phase, HackerConfig, NoiseModel};
use qkd_simulator::pipeline::polarization_for;

fn table_angle(basis: Basis, value: u8) -> u16 {
    polarization_for(basis, value)
}

#[test]
fn generate_returns_exactly_n_well_formed_bits() {
    let mut sim = BB84Simulator::new();
    let bits = sim.generate_alice_bits(5);
    assert_eq!(bits.len(), 5);
    for (i, b) in bits.iter().enumerate() {
        assert_eq!(b.id, format!("alice-{}", i));
        assert!(b.value == 0 || b.value == 1);
        assert!(b.basis == Basis::Rectilinear || b.basis == Basis::Diagonal);
        assert_eq!(b.polarization, table_angle(b.basis, b.value));
        assert!([0, 45, 90, 135].contains(&b.polarization));
    }
    // Timestamps step by a fixed amount per bit.
    for w in bits.windows(2) {
        assert_eq!(w[1].timestamp - w[0].timestamp, 100);
    }
    let state = sim.get_state();
    assert_eq!(state.phase, Phase::Transmission);
    assert_eq!(state.alice_bits, bits);
}

#[test]
fn generate_zero_bits_yields_an_empty_sequence() {
    let mut sim = BB84Simulator::new();
    let bits = sim.generate_alice_bits(0);
    assert!(bits.is_empty());
    assert_eq!(sim.get_state().phase, Phase::Transmission);
}

#[test]
fn baseline_reception_is_faithful_where_bases_agree() {
    let mut sim = BB84Simulator::new();
    let alice = sim.generate_alice_bits(50);
    let bob = sim.measure_bits(false);
    assert_eq!(bob.len(), alice.len());
    for (a, b) in alice.iter().zip(bob.iter()) {
        if a.basis == b.basis {
            assert_eq!(a.value, b.value);
        }
    }
    let state = sim.get_state();
    assert!(state.intercepted_bits.is_empty());
    assert!(!state.is_hacker_present);
    assert_eq!(state.phase, Phase::Sifting);
}

#[test]
fn certain_interception_records_one_reading_per_bit() {
    let mut sim = BB84Simulator::new();
    sim.configure_hacker(HackerConfig {
        interception_rate_ppm: 1_000_000,
        measurement_error_rate_ppm: 0,
        resend_error_rate_ppm: 0,
    });
    let alice = sim.generate_alice_bits(30);
    sim.measure_bits(true);
    let state = sim.get_state();
    assert!(state.is_hacker_present);
    assert_eq!(state.intercepted_bits.len(), 30);
    for (i, h) in state.intercepted_bits.iter().enumerate() {
        assert_eq!(h.id, format!("hacker-{}", i));
        assert!(h.value == 0 || h.value == 1);
        assert_eq!(h.polarization, alice[i].polarization);
        assert_eq!(h.timestamp, alice[i].timestamp);
    }
}

#[test]
fn end_to_end_baseline_run_has_zero_error_rate() {
    let mut sim = BB84Simulator::new();
    let alice = sim.generate_alice_bits(100);
    let bob = sim.measure_bits(false);
    let key = sim.sift_key();
    let state = sim.get_state();
    assert_eq!(state.phase, Phase::ErrorCheck);
    assert_eq!(state.error_rate_milli_percent, 0);
    assert_eq!(state.shared_key, key);
    let matches = alice
        .iter()
        .zip(bob.iter())
        .filter(|(a, b)| a.basis == b.basis)
        .count();
    assert_eq!(key.len(), matches);
    // Bases agree about half the time; a run outside this band is
    // astronomically unlikely.
    assert!(key.len() >= 10 && key.len() <= 90);
    assert!(key.chars().all(|c| c == '0' || c == '1'));
}

#[test]
fn complete_stamps_the_end_and_freezes_the_rest() {
    let mut sim = BB84Simulator::new();
    sim.generate_alice_bits(10);
    sim.measure_bits(false);
    sim.sift_key();
    let before = sim.get_state();
    let after = sim.complete_simulation();
    assert_eq!(after.phase, Phase::Complete);
    assert_eq!(after.alice_bits, before.alice_bits);
    assert_eq!(after.bob_bits, before.bob_bits);
    assert_eq!(after.shared_key, before.shared_key);
    assert_eq!(after.error_rate_milli_percent, before.error_rate_milli_percent);
    assert_eq!(after.session_id, before.session_id);
    assert_eq!(after.start_time, before.start_time);
    assert_eq!(after, sim.get_state());
}

#[test]
fn reset_empties_everything_and_draws_a_new_session_id() {
    let mut sim = BB84Simulator::new();
    sim.generate_alice_bits(20);
    sim.measure_bits(true);
    sim.sift_key();
    let before = sim.get_state();
    sim.reset();
    let state = sim.get_state();
    assert!(state.alice_bits.is_empty());
    assert!(state.bob_bits.is_empty());
    assert!(state.intercepted_bits.is_empty());
    assert_eq!(state.shared_key, "");
    assert_eq!(state.error_rate_milli_percent, 0);
    assert!(!state.is_hacker_present);
    assert_eq!(state.phase, Phase::Preparation);
    assert_eq!(state.end_time, 0);
    assert_ne!(state.session_id, before.session_id);
}

#[test]
fn get_state_is_idempotent() {
    let mut sim = BB84Simulator::new();
    sim.generate_alice_bits(10);
    let first = sim.get_state();
    let second = sim.get_state();
    assert_eq!(first, second);
}

#[test]
fn configuring_touches_no_state() {
    let mut sim = BB84Simulator::new();
    sim.generate_alice_bits(5);
    let before = sim.get_state();
    sim.configure_hacker(HackerConfig {
        interception_rate_ppm: 123,
        measurement_error_rate_ppm: 456,
        resend_error_rate_ppm: 789,
    });
    assert_eq!(sim.get_state(), before);
}

#[test]
fn session_ids_carry_the_protocol_prefix() {
    let bb84 = BB84Simulator::new();
    assert!(bb84.get_state().session_id.starts_with("QKD-"));
    let sarg = SARG04Simulator::new();
    assert!(sarg.get_state().session_id.starts_with("SARG04-"));
}

#[test]
fn drift_shifts_each_generated_angle_by_its_index() {
    let mut sim = SARG04Simulator::new();
    sim.configure_noise(NoiseModel {
        detector_efficiency_ppm: 0,
        dark_count_rate_ppm: 0,
        polarization_drift_milli_deg: 2_000,
        loss_probability_ppm: 0,
    });
    let bits = sim.generate_alice_bits(4);
    for (i, b) in bits.iter().enumerate() {
        let expected = (table_angle(b.basis, b.value) + 2 * i as u16) % 180;
        assert_eq!(b.polarization, expected);
        assert_eq!(b.id, format!("alice-{}", i));
    }
}

#[test]
fn total_loss_yields_only_placeholders() {
    let mut sim = SARG04Simulator::new();
    sim.configure_noise(NoiseModel {
        detector_efficiency_ppm: 1_000_000,
        dark_count_rate_ppm: 0,
        polarization_drift_milli_deg: 0,
        loss_probability_ppm: 1_000_000,
    });
    sim.generate_alice_bits(12);
    let bob = sim.measure_bits(false);
    assert_eq!(bob.len(), 12);
    for b in &bob {
        assert_eq!(b.value, 0);
        assert_eq!(b.basis, Basis::Rectilinear);
        assert_eq!(b.polarization, 0);
    }
    assert!(sim.get_state().intercepted_bits.is_empty());
}

#[test]
fn noise_aware_session_walks_the_same_phases() {
    let mut sim = SARG04Simulator::new();
    assert_eq!(sim.get_state().phase, Phase::Preparation);
    sim.generate_alice_bits(8);
    assert_eq!(sim.get_state().phase, Phase::Transmission);
    let bob = sim.measure_bits(false);
    assert_eq!(bob.len(), 8);
    assert_eq!(sim.get_state().phase, Phase::Sifting);
    let key = sim.sift_key();
    assert_eq!(sim.get_state().phase, Phase::ErrorCheck);
    assert!(key.len() <= 8);
    assert!(sim.get_state().error_rate_milli_percent <= 100_000);
    let snapshot = sim.complete_simulation();
    assert_eq!(snapshot.phase, Phase::Complete);
    sim.reset();
    let fresh = sim.get_state();
    assert_eq!(fresh.phase, Phase::Preparation);
    assert_ne!(fresh.session_id, snapshot.session_id);
}
