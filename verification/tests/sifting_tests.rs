use qkd_simulator::models::{Basis, QuantumBit};
use qkd_simulator::pipeline::polarization_for;
use qkd_simulator::sifting::{sift_pairs, error_rate_from_counts};

fn bit(value: u8, basis: Basis) -> QuantumBit {
    QuantumBit {
        id: String::from("b"),
        value,
        basis,
        polarization: polarization_for(basis, value),
        timestamp: 0,
    }
}

#[test]
fn sifting_keeps_exactly_the_equal_basis_positions() {
    let alice = vec![
        bit(0, Basis::Rectilinear),
        bit(1, Basis::Diagonal),
        bit(1, Basis::Rectilinear),
        bit(0, Basis::Diagonal),
    ];
    let bob = vec![
        bit(0, Basis::Rectilinear),
        bit(1, Basis::Rectilinear),
        bit(1, Basis::Diagonal),
        bit(0, Basis::Diagonal),
    ];
    let (key, errors, kept) = sift_pairs(&alice, &bob);
    assert_eq!(key, "00");
    assert_eq!(errors, 0);
    assert_eq!(kept, 2);
}

#[test]
fn sifting_counts_value_disagreements_as_errors() {
    let alice = vec![bit(0, Basis::Rectilinear), bit(1, Basis::Rectilinear)];
    let bob = vec![bit(1, Basis::Rectilinear), bit(0, Basis::Diagonal)];
    let (key, errors, kept) = sift_pairs(&alice, &bob);
    // The kept position still contributes the sender's value to the key.
    assert_eq!(key, "0");
    assert_eq!(errors, 1);
    assert_eq!(kept, 1);
    assert_eq!(error_rate_from_counts(errors, kept), 100_000);
}

#[test]
fn a_shorter_receiver_sequence_is_skipped_not_an_error() {
    let alice = vec![
        bit(1, Basis::Diagonal),
        bit(0, Basis::Rectilinear),
        bit(1, Basis::Rectilinear),
    ];
    let bob = vec![bit(1, Basis::Diagonal)];
    let (key, errors, kept) = sift_pairs(&alice, &bob);
    assert_eq!(key, "1");
    assert_eq!(errors, 0);
    assert_eq!(kept, 1);
}

#[test]
fn empty_sequences_sift_to_an_empty_key_and_zero_rate() {
    let alice: Vec<QuantumBit> = Vec::new();
    let bob: Vec<QuantumBit> = Vec::new();
    let (key, errors, kept) = sift_pairs(&alice, &bob);
    assert_eq!(key, "");
    assert_eq!(errors, 0);
    assert_eq!(kept, 0);
    assert_eq!(error_rate_from_counts(errors, kept), 0);
}

#[test]
fn error_rate_is_the_error_share_in_milli_percent() {
    assert_eq!(error_rate_from_counts(0, 10), 0);
    assert_eq!(error_rate_from_counts(1, 4), 25_000);
    assert_eq!(error_rate_from_counts(2, 3), 66_666);
    assert_eq!(error_rate_from_counts(7, 7), 100_000);
}
