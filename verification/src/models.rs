//! Data model: quantum bits, encoding bases, protocol phases, configuration
//! records, and the session snapshot, together with their ghost views.

use vstd::prelude::*;

verus! {

/// One of the two encoding schemes used to represent a bit as a polarization
/// angle.
#[derive(Clone, Copy, Debug, PartialEq, Eq, Structural)]
pub enum Basis {
    Rectilinear,
    Diagonal,
}

/// The protocol phase of a session, strictly forward-moving; only a reset
/// returns to `Preparation`.
#[derive(Clone, Copy, Debug, PartialEq, Eq, Structural)]
pub enum Phase {
    Preparation,
    Transmission,
    Sifting,
    ErrorCheck,
    Complete,
}

/// A single simulated quantum bit: a classical value, the basis it was
/// encoded in, the resulting polarization angle in degrees, and bookkeeping
/// identity and timing.
#[derive(Debug, PartialEq)]
pub struct QuantumBit {
    pub id: String,
    pub value: u8,
    pub basis: Basis,
    pub polarization: u16,
    pub timestamp: u64,
}

/// Ghost view of a `QuantumBit`: the same record with the id as a character
/// sequence.
pub ghost struct BitView {
    pub id: Seq<char>,
    pub value: u8,
    pub basis: Basis,
    pub polarization: u16,
    pub timestamp: u64,
}

impl View for QuantumBit {
    type V = BitView;

    open spec fn view(&self) -> BitView {
        BitView {
            id: self.id@,
            value: self.value,
            basis: self.basis,
            polarization: self.polarization,
            timestamp: self.timestamp,
        }
    }
}

impl Clone for QuantumBit {
    fn clone(&self) -> (r: Self)
        ensures
            r@ == self@,
    {
        QuantumBit {
            id: self.id.clone(),
            value: self.value,
            basis: self.basis,
            polarization: self.polarization,
            timestamp: self.timestamp,
        }
    }
}

/// Eavesdropper parameters. Each rate is a probability expressed as a
/// fraction of `PPM_SCALE` (parts per million); values at or above the scale
/// act as probability one. Out-of-range values are accepted unclamped.
#[derive(Clone, Copy, Debug, PartialEq, Eq, Structural)]
pub struct HackerConfig {
    pub interception_rate_ppm: u32,
    pub measurement_error_rate_ppm: u32,
    pub resend_error_rate_ppm: u32,
}

/// Channel noise parameters, all defaulting to zero. Rates are fractions of
/// `PPM_SCALE`; the polarization drift is in thousandths of a degree per bit
/// index.
#[derive(Clone, Copy, Debug, PartialEq, Eq, Structural)]
pub struct NoiseModel {
    pub detector_efficiency_ppm: u32,
    pub dark_count_rate_ppm: u32,
    pub polarization_drift_milli_deg: u32,
    pub loss_probability_ppm: u32,
}

impl Default for NoiseModel {
    fn default() -> (r: Self)
        ensures
            r == (NoiseModel {
                detector_efficiency_ppm: 0,
                dark_count_rate_ppm: 0,
                polarization_drift_milli_deg: 0,
                loss_probability_ppm: 0,
            }),
    {
        NoiseModel {
            detector_efficiency_ppm: 0,
            dark_count_rate_ppm: 0,
            polarization_drift_milli_deg: 0,
            loss_probability_ppm: 0,
        }
    }
}

/// The full snapshot of one session: both bit sequences, the eavesdropper's
/// recorded readings, the sifted key, the estimated error rate (in
/// thousandths of a percent, 0 to 100_000), and the session bookkeeping.
#[derive(Debug, PartialEq)]
pub struct SimulationState {
    pub alice_bits: Vec<QuantumBit>,
    pub bob_bits: Vec<QuantumBit>,
    pub shared_key: String,
    pub intercepted_bits: Vec<QuantumBit>,
    pub error_rate_milli_percent: u32,
    pub is_hacker_present: bool,
    pub phase: Phase,
    pub session_id: String,
    pub start_time: u64,
    pub end_time: u64,
}

/// Ghost view of a session snapshot: bit sequences as sequences of bit
/// views, strings as character sequences.
pub ghost struct StateView {
    pub alice_bits: Seq<BitView>,
    pub bob_bits: Seq<BitView>,
    pub shared_key: Seq<char>,
    pub intercepted_bits: Seq<BitView>,
    pub error_rate_milli_percent: u32,
    pub is_hacker_present: bool,
    pub phase: Phase,
    pub session_id: Seq<char>,
    pub start_time: u64,
    pub end_time: u64,
}

/// The view of a sequence of quantum bits.
pub open spec fn bits_view(v: Seq<QuantumBit>) -> Seq<BitView> {
    v.map_values(|b: QuantumBit| b@)
}

impl View for SimulationState {
    type V = StateView;

    open spec fn view(&self) -> StateView {
        StateView {
            alice_bits: bits_view(self.alice_bits@),
            bob_bits: bits_view(self.bob_bits@),
            shared_key: self.shared_key@,
            intercepted_bits: bits_view(self.intercepted_bits@),
            error_rate_milli_percent: self.error_rate_milli_percent,
            is_hacker_present: self.is_hacker_present,
            phase: self.phase,
            session_id: self.session_id@,
            start_time: self.start_time,
            end_time: self.end_time,
        }
    }
}

/// The character for a single decimal digit.
pub open spec fn digit_char(d: int) -> char {
    if d == 0 {
        '0'
    } else if d == 1 {
        '1'
    } else if d == 2 {
        '2'
    } else if d == 3 {
        '3'
    } else if d == 4 {
        '4'
    } else if d == 5 {
        '5'
    } else if d == 6 {
        '6'
    } else if d == 7 {
        '7'
    } else if d == 8 {
        '8'
    } else {
        '9'
    }
}

/// The decimal rendering of a non-negative integer, most significant digit
/// first.
pub open spec fn decimal_of(n: int) -> Seq<char>
    decreases n,
{
    if n < 10 {
        seq![digit_char(n)]
    } else {
        decimal_of(n / 10).push(digit_char(n % 10))
    }
}

/// The identifier carried by the sender's bit at the given index.
pub open spec fn alice_id(i: int) -> Seq<char> {
    "alice-"@ + decimal_of(i)
}

/// The identifier carried by the receiver's bit at the given index.
pub open spec fn bob_id(i: int) -> Seq<char> {
    "bob-"@ + decimal_of(i)
}

/// The identifier tagging an eavesdropper reading with the index of the
/// intercepted bit.
pub open spec fn hacker_id(i: int) -> Seq<char> {
    "hacker-"@ + decimal_of(i)
}

/// Well-formedness of a bit sequence: every value is a classical bit.
pub open spec fn wf_bits(s: Seq<BitView>) -> bool {
    forall|i: int| 0 <= i < s.len() ==> (#[trigger] s[i]).value <= 1
}

/// Deep copy of a bit vector, preserving the view.
pub fn clone_bits(v: &Vec<QuantumBit>) -> (r: Vec<QuantumBit>)
    ensures
        bits_view(r@) == bits_view(v@),
{
    let mut r: Vec<QuantumBit> = Vec::new();
    let mut i: usize = 0;
    while i < v.len()
        invariant
            i <= v.len(),
            r@.len() == i,
            forall|j: int| 0 <= j < i ==> r@[j]@ == v@[j]@,
        decreases v.len() - i,
    {
        r.push(v[i].clone());
        i += 1;
    }
    proof {
        assert(bits_view(r@) =~= bits_view(v@));
    }
    r
}

/// A blank snapshot for the given session identifier and start time: no
/// bits, no key, no error, in the preparation phase.
pub(crate) fn blank_state(session_id: String, start_time: u64) -> (s: SimulationState)
    ensures
        s@.alice_bits.len() == 0,
        s@.bob_bits.len() == 0,
        s@.intercepted_bits.len() == 0,
        s@.shared_key.len() == 0,
        s@.error_rate_milli_percent == 0,
        s@.is_hacker_present == false,
        s@.phase == Phase::Preparation,
        s@.session_id == session_id@,
        s@.start_time == start_time,
        s@.end_time == 0,
{
    SimulationState {
        alice_bits: Vec::new(),
        bob_bits: Vec::new(),
        shared_key: String::new(),
        intercepted_bits: Vec::new(),
        error_rate_milli_percent: 0,
        is_hacker_present: false,
        phase: Phase::Preparation,
        session_id,
        start_time,
        end_time: 0,
    }
}

impl Clone for SimulationState {
    fn clone(&self) -> (r: Self)
        ensures
            r@ == self@,
    {
        SimulationState {
            alice_bits: clone_bits(&self.alice_bits),
            bob_bits: clone_bits(&self.bob_bits),
            shared_key: self.shared_key.clone(),
            intercepted_bits: clone_bits(&self.intercepted_bits),
            error_rate_milli_percent: self.error_rate_milli_percent,
            is_hacker_present: self.is_hacker_present,
            phase: self.phase,
            session_id: self.session_id.clone(),
            start_time: self.start_time,
            end_time: self.end_time,
        }
    }
}

} // verus!
