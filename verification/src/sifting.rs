//! Basis sifting and error estimation: pairwise comparison of the sender's
//! and receiver's sequences, the sifted key, and the error rate.

use vstd::prelude::*;
use crate::models::{BitView, QuantumBit, bits_view};
use vstd::arithmetic::mul::lemma_mul_inequality;
use vstd::arithmetic::div_mod::{lemma_div_is_ordered, lemma_div_multiples_vanish,
    lemma_div_pos_is_pos};

verus! {

/// Position `i` is kept: the receiver has a bit there and both used the
/// same basis.
pub open spec fn kept_at(a: Seq<BitView>, b: Seq<BitView>, i: int) -> bool {
    i < b.len() && a[i].basis == b[i].basis
}

/// A kept position where the two values nevertheless differ.
pub open spec fn error_at(a: Seq<BitView>, b: Seq<BitView>, i: int) -> bool {
    kept_at(a, b, i) && a[i].value != b[i].value
}

/// How a kept sender value is rendered into the key.
pub open spec fn bit_char(v: u8) -> char {
    if v == 0 {
        '0'
    } else {
        '1'
    }
}

/// The number of kept positions among the first `n`.
pub open spec fn kept_count(a: Seq<BitView>, b: Seq<BitView>, n: int) -> int
    decreases n,
{
    if n <= 0 {
        0
    } else {
        kept_count(a, b, n - 1) + if kept_at(a, b, n - 1) {
            1int
        } else {
            0int
        }
    }
}

/// The number of errors among the first `n` positions.
pub open spec fn error_count(a: Seq<BitView>, b: Seq<BitView>, n: int) -> int
    decreases n,
{
    if n <= 0 {
        0
    } else {
        error_count(a, b, n - 1) + if error_at(a, b, n - 1) {
            1int
        } else {
            0int
        }
    }
}

/// The sifted key over the first `n` positions: the kept sender values, in
/// index order, rendered as characters.
pub open spec fn key_chars(a: Seq<BitView>, b: Seq<BitView>, n: int) -> Seq<char>
    decreases n,
{
    if n <= 0 {
        Seq::empty()
    } else {
        key_chars(a, b, n - 1) + if kept_at(a, b, n - 1) {
            seq![bit_char(a[n - 1].value)]
        } else {
            Seq::<char>::empty()
        }
    }
}

/// The error rate in thousandths of a percent: the errors among the kept
/// positions, or zero when nothing was kept.
pub open spec fn rate_milli_percent(errors: int, kept: int) -> int {
    if kept > 0 {
        100_000 * errors / kept
    } else {
        0
    }
}

/// The sifted key is exactly one character per kept position.
pub proof fn lemma_key_length(a: Seq<BitView>, b: Seq<BitView>, n: int)
    ensures
        key_chars(a, b, n).len() == kept_count(a, b, n),
        0 <= kept_count(a, b, n),
    decreases n,
{
    if n > 0 {
        lemma_key_length(a, b, n - 1);
    }
}

/// There are never more errors than kept positions, and never fewer than
/// none.
pub proof fn lemma_errors_within_kept(a: Seq<BitView>, b: Seq<BitView>, n: int)
    ensures
        0 <= error_count(a, b, n) <= kept_count(a, b, n),
    decreases n,
{
    if n > 0 {
        lemma_errors_within_kept(a, b, n - 1);
    }
}

/// The error rate lies between zero and one hundred percent.
pub proof fn lemma_rate_in_range(errors: int, kept: int)
    requires
        0 <= errors <= kept,
    ensures
        0 <= rate_milli_percent(errors, kept) <= 100_000,
{
    if kept > 0 {
        lemma_div_pos_is_pos(100_000 * errors, kept);
        lemma_mul_inequality(errors, kept, 100_000);
        assert(errors * 100_000 == 100_000 * errors) by (nonlinear_arith);
        assert(kept * 100_000 == 100_000 * kept) by (nonlinear_arith);
        lemma_div_is_ordered(100_000 * errors, 100_000 * kept, kept);
        lemma_div_multiples_vanish(100_000, kept);
        assert(kept * 100_000 == 100_000 * kept) by (nonlinear_arith);
    }
}

/// If every kept position carries equal values, the error count, and with
/// it the error rate, is zero.
pub proof fn lemma_agreement_means_zero_rate(a: Seq<BitView>, b: Seq<BitView>, n: int)
    requires
        forall|i: int| 0 <= i < n && kept_at(a, b, i) ==> a[i].value == b[i].value,
    ensures
        error_count(a, b, n) == 0,
        rate_milli_percent(error_count(a, b, n), kept_count(a, b, n)) == 0,
    decreases n,
{
    if n > 0 {
        lemma_agreement_means_zero_rate(a, b, n - 1);
    }
    lemma_errors_within_kept(a, b, n);
    if kept_count(a, b, n) > 0 {
        lemma_div_pos_is_pos(0, kept_count(a, b, n));
        lemma_div_is_ordered(0, 0, kept_count(a, b, n));
        assert(100_000 * 0 == 0) by (nonlinear_arith);
    }
}

/// Every character of the sifted key is a rendered classical bit.
pub proof fn lemma_key_is_binary(a: Seq<BitView>, b: Seq<BitView>, n: int)
    ensures
        forall|i: int|
            0 <= i < key_chars(a, b, n).len() ==> key_chars(a, b, n)[i] == '0' || key_chars(
                a,
                b,
                n,
            )[i] == '1',
    decreases n,
{
    if n > 0 {
        lemma_key_is_binary(a, b, n - 1);
        let whole = key_chars(a, b, n);
        let front = key_chars(a, b, n - 1);
        assert forall|i: int| 0 <= i < whole.len() implies whole[i] == '0' || whole[i]
            == '1' by {
            if i < front.len() {
                assert(whole[i] == front[i]);
            }
        }
    }
}

/// Faithful transmission: wherever the receiver's basis agrees with the
/// sender's, the received value agrees too.
pub open spec fn faithful_pairs(a: Seq<BitView>, b: Seq<BitView>) -> bool {
    forall|i: int|
        0 <= i < a.len() && i < b.len() && (#[trigger] b[i]).basis == a[i].basis ==> b[i].value
            == a[i].value
}

/// A faithfully transmitted sequence sifts without errors: the error count
/// and the error rate are both zero.
pub proof fn lemma_faithful_sift(a: Seq<BitView>, b: Seq<BitView>)
    requires
        faithful_pairs(a, b),
    ensures
        error_count(a, b, a.len() as int) == 0,
        rate_milli_percent(
            error_count(a, b, a.len() as int),
            kept_count(a, b, a.len() as int),
        ) == 0,
{
    lemma_agreement_means_zero_rate(a, b, a.len() as int);
}

/// Walks the two sequences pairwise and returns the sifted key together
/// with the error and comparison counts.
pub fn sift_pairs(alice: &Vec<QuantumBit>, bob: &Vec<QuantumBit>) -> (r: (String, usize, usize))
    ensures
        r.0@ == key_chars(bits_view(alice@), bits_view(bob@), alice@.len() as int),
        r.1 as int == error_count(bits_view(alice@), bits_view(bob@), alice@.len() as int),
        r.2 as int == kept_count(bits_view(alice@), bits_view(bob@), alice@.len() as int),
{
    let ghost a = bits_view(alice@);
    let ghost b = bits_view(bob@);
    let mut key = String::new();
    let mut errors: usize = 0;
    let mut kept: usize = 0;
    let mut i: usize = 0;
    while i < alice.len()
        invariant
            i <= alice@.len(),
            a == bits_view(alice@),
            b == bits_view(bob@),
            key@ == key_chars(a, b, i as int),
            errors as int == error_count(a, b, i as int),
            kept as int == kept_count(a, b, i as int),
            errors <= i,
            kept <= i,
        decreases alice@.len() - i,
    {
        if i < bob.len() {
            let ab = &alice[i];
            let bb = &bob[i];
            if ab.basis == bb.basis {
                if ab.value == 0 {
                    key.append("0");
                    proof {
                        reveal_strlit("0");
                        assert(seq![bit_char(a[i as int].value)] =~= "0"@);
                    }
                } else {
                    key.append("1");
                    proof {
                        reveal_strlit("1");
                        assert(seq![bit_char(a[i as int].value)] =~= "1"@);
                    }
                }
                if ab.value != bb.value {
                    errors += 1;
                }
                kept += 1;
            }
        }
        i += 1;
    }
    (key, errors, kept)
}

/// Computes the error rate in thousandths of a percent from the error and
/// comparison counts.
pub fn error_rate_from_counts(errors: usize, kept: usize) -> (r: u32)
    requires
        errors <= kept,
    ensures
        r as int == rate_milli_percent(errors as int, kept as int),
        r <= 100_000,
{
    if kept == 0 {
        0
    } else {
        proof {
            lemma_rate_in_range(errors as int, kept as int);
        }
        (100_000u128 * (errors as u128) / (kept as u128)) as u32
    }
}

} // verus!
