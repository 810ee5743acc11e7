use qkd_simulator::models::{Basis, QuantumBit, HackerConfig, NoiseModel};
use qkd_simulator::pipeline::{
    polarization_for, apply_drift, stamp_at, receive_stamp_at, generate_one, measure_one,
    MeasureDraws,
};

fn lossless() -> NoiseModel {
    NoiseModel {
        detector_efficiency_ppm: 1_000_000,
        dark_count_rate_ppm: 0,
        polarization_drift_milli_deg: 0,
        loss_probability_ppm: 0,
    }
}

fn quiet_draws() -> MeasureDraws {
    MeasureDraws {
        loss_roll: 999_999,
        dark_roll: 999_999,
        dark_basis_roll: 999_999,
        dark_value_roll: 999_999,
        intercept_roll: 999_999,
        hacker_basis_roll: 999_999,
        hacker_flip_roll: 999_999,
        hacker_guess_roll: 999_999,
        resend_roll: 999_999,
        resend_value_roll: 999_999,
        bob_basis_roll: 999_999,
        detector_roll: 999_999,
        bob_guess_roll: 999_999,
        residual_roll: 999_999,
    }
}

fn sender_bit(index: usize, value: u8, basis: Basis, timestamp: u64) -> QuantumBit {
    QuantumBit {
        id: format!("alice-{}", index),
        value,
        basis,
        polarization: polarization_for(basis, value),
        timestamp,
    }
}

#[test]
fn encoding_table_matches_the_four_angles() {
    assert_eq!(polarization_for(Basis::Rectilinear, 0), 0);
    assert_eq!(polarization_for(Basis::Rectilinear, 1), 90);
    assert_eq!(polarization_for(Basis::Diagonal, 0), 45);
    assert_eq!(polarization_for(Basis::Diagonal, 1), 135);
}

#[test]
fn drift_rounds_to_nearest_degree_modulo_180() {
    // 45 degrees plus 1 degree per index at index 3.
    assert_eq!(apply_drift(45, 1000, 3), 48);
    // Half a degree per index rounds up at index 1.
    assert_eq!(apply_drift(135, 500, 1), 136);
    // No drift leaves the angle alone.
    assert_eq!(apply_drift(90, 0, 12345), 90);
    // The drifted angle wraps at 180 degrees.
    assert_eq!(apply_drift(135, 90_000, 1), 45);
}

#[test]
fn timestamps_step_and_saturate() {
    assert_eq!(stamp_at(1000, 0), 1000);
    assert_eq!(stamp_at(1000, 7), 1700);
    assert_eq!(stamp_at(u64::MAX - 10, 1), u64::MAX);
    assert_eq!(receive_stamp_at(2000), 2050);
    assert_eq!(receive_stamp_at(u64::MAX - 10), u64::MAX);
}

#[test]
fn generate_one_builds_the_exact_bit() {
    let b = generate_one(4, 1000, 0, 600_000, 0);
    assert_eq!(b.id, "alice-4");
    assert_eq!(b.value, 1);
    assert_eq!(b.basis, Basis::Rectilinear);
    assert_eq!(b.polarization, 90);
    assert_eq!(b.timestamp, 1400);

    let b = generate_one(0, 5, 0, 0, 700_000);
    assert_eq!(b.id, "alice-0");
    assert_eq!(b.value, 0);
    assert_eq!(b.basis, Basis::Diagonal);
    assert_eq!(b.polarization, 45);
    assert_eq!(b.timestamp, 5);
}

#[test]
fn lost_photon_yields_the_placeholder() {
    let a = sender_bit(7, 1, Basis::Diagonal, 1000);
    let noise = NoiseModel { loss_probability_ppm: 1_000_000, ..lossless() };
    let cfg = HackerConfig {
        interception_rate_ppm: 0,
        measurement_error_rate_ppm: 0,
        resend_error_rate_ppm: 0,
    };
    let mut d = quiet_draws();
    d.loss_roll = 0;
    let (bob, reading) = measure_one(&a, 7, false, &cfg, &noise, 0, &d);
    assert_eq!(bob.id, "bob-7");
    assert_eq!(bob.value, 0);
    assert_eq!(bob.basis, Basis::Rectilinear);
    assert_eq!(bob.polarization, 0);
    assert_eq!(bob.timestamp, 1050);
    assert!(reading.is_none());
}

#[test]
fn dark_count_yields_an_independent_detection() {
    let a = sender_bit(3, 1, Basis::Rectilinear, 500);
    let noise = NoiseModel { dark_count_rate_ppm: 1_000_000, ..lossless() };
    let cfg = HackerConfig {
        interception_rate_ppm: 0,
        measurement_error_rate_ppm: 0,
        resend_error_rate_ppm: 0,
    };
    let mut d = quiet_draws();
    d.dark_roll = 0;
    d.dark_basis_roll = 600_000;
    d.dark_value_roll = 100_000;
    let (bob, reading) = measure_one(&a, 3, false, &cfg, &noise, 0, &d);
    assert_eq!(bob.id, "bob-3");
    assert_eq!(bob.value, 0);
    assert_eq!(bob.basis, Basis::Diagonal);
    assert_eq!(bob.polarization, 45);
    assert_eq!(bob.timestamp, 550);
    assert!(reading.is_none());
}

#[test]
fn interception_records_the_reading_and_resends() {
    let a = sender_bit(2, 1, Basis::Rectilinear, 2000);
    let cfg = HackerConfig {
        interception_rate_ppm: 1_000_000,
        measurement_error_rate_ppm: 1_000_000,
        resend_error_rate_ppm: 0,
    };
    let mut d = quiet_draws();
    d.intercept_roll = 0;
    d.hacker_basis_roll = 0;
    d.hacker_flip_roll = 0;
    d.bob_basis_roll = 0;
    let (bob, reading) = measure_one(&a, 2, true, &cfg, &lossless(), 0, &d);
    // The eavesdropper measured in the sender's basis but flipped the value,
    // and re-sent the flipped value; the receiver read it in the same basis.
    let h = reading.expect("an interception was configured to be certain");
    assert_eq!(h.id, "hacker-2");
    assert_eq!(h.value, 0);
    assert_eq!(h.basis, Basis::Rectilinear);
    assert_eq!(h.polarization, 90);
    assert_eq!(h.timestamp, 2000);
    assert_eq!(bob.id, "bob-2");
    assert_eq!(bob.value, 0);
    assert_eq!(bob.basis, Basis::Rectilinear);
    assert_eq!(bob.polarization, 0);
    assert_eq!(bob.timestamp, 2050);
}

#[test]
fn matching_basis_reproduces_the_value_exactly() {
    let cfg = HackerConfig {
        interception_rate_ppm: 0,
        measurement_error_rate_ppm: 0,
        resend_error_rate_ppm: 0,
    };
    for (value, basis, roll) in [
        (0u8, Basis::Rectilinear, 0u32),
        (1, Basis::Rectilinear, 100_000),
        (0, Basis::Diagonal, 600_000),
        (1, Basis::Diagonal, 999_999),
    ] {
        let a = sender_bit(0, value, basis, 10);
        let mut d = quiet_draws();
        // Choose the receiver's basis to match the sender's.
        d.bob_basis_roll = match basis {
            Basis::Rectilinear => 0,
            Basis::Diagonal => 999_999,
        };
        d.bob_guess_roll = roll;
        let (bob, _) = measure_one(&a, 0, false, &cfg, &lossless(), 0, &d);
        assert_eq!(bob.basis, basis);
        assert_eq!(bob.value, value);
    }
}

#[test]
fn residual_flip_inverts_the_received_value() {
    let a = sender_bit(0, 1, Basis::Rectilinear, 10);
    let cfg = HackerConfig {
        interception_rate_ppm: 0,
        measurement_error_rate_ppm: 0,
        resend_error_rate_ppm: 0,
    };
    let mut d = quiet_draws();
    d.bob_basis_roll = 0;
    d.residual_roll = 9_999;
    let (bob, _) = measure_one(&a, 0, false, &cfg, &lossless(), 10_000, &d);
    assert_eq!(bob.value, 0);
    assert_eq!(bob.polarization, 0);
}
