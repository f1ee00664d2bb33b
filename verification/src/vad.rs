//! Energy-based voice-activity gate.
//!
//! The energy of a window is its root mean square. A window is active when
//! its energy lies strictly above a threshold. Both are decided in exact
//! integer arithmetic: `sqrt(sum / len) > t` holds of the real numbers
//! exactly when `sum > t * t * len` does.
use vstd::prelude::*;

verus! {

/// Threshold of the streaming path, one hundredth of full scale.
pub const VAD_THRESHOLD: u32 = 21_474_836;

/// The magnitude of a sample.
pub open spec fn magnitude(sample: i32) -> nat {
    if sample < 0 {
        (-(sample as int)) as nat
    } else {
        sample as nat
    }
}

/// The sum of the squares of the samples.
pub open spec fn sum_squares(samples: Seq<i32>) -> nat
    decreases samples.len(),
{
    if samples.len() == 0 {
        0
    } else {
        sum_squares(samples.drop_last()) + magnitude(samples.last()) * magnitude(samples.last())
    }
}

/// Whether the root mean square of `samples` lies strictly above `threshold`.
/// An empty window has energy zero and lies above no threshold.
pub open spec fn energy_exceeds(samples: Seq<i32>, threshold: nat) -> bool {
    samples.len() > 0 && sum_squares(samples) > threshold * threshold * samples.len()
}

/// Whether `energy` is the root mean square of `samples` rounded up to the
/// next integer: the least `e` whose square is no less than the mean square.
pub open spec fn is_energy(samples: Seq<i32>, energy: nat) -> bool {
    if samples.len() == 0 {
        energy == 0
    } else {
        &&& energy * energy * samples.len() >= sum_squares(samples)
        &&& energy > 0 ==> (energy - 1) * (energy - 1) * samples.len() < sum_squares(samples)
    }
}

/// The sum of squares of a window is bounded by its length.
pub proof fn lemma_sum_squares_bound(samples: Seq<i32>)
    ensures
        sum_squares(samples) <= samples.len() * 0x4000_0000_0000_0000,
    decreases samples.len(),
{
    if samples.len() > 0 {
        lemma_sum_squares_bound(samples.drop_last());
        let m = magnitude(samples.last());
        assert(m * m <= 0x4000_0000_0000_0000) by (nonlinear_arith)
            requires
                m <= 0x8000_0000,
        ;
    }
}

/// The rounded-up energy lies above an integer threshold exactly when the
/// true energy does.
pub proof fn lemma_energy_decides(samples: Seq<i32>, energy: nat, threshold: nat)
    requires
        is_energy(samples, energy),
    ensures
        energy > threshold <==> energy_exceeds(samples, threshold),
{
    let n = samples.len();
    let s = sum_squares(samples);
    if n > 0 {
        if energy > threshold {
            let below = (energy - 1) as nat;
            assert(threshold * threshold * n <= below * below * n) by (nonlinear_arith)
                requires
                    threshold <= below,
            ;
        } else {
            assert(energy * energy * n <= threshold * threshold * n) by (nonlinear_arith)
                requires
                    energy <= threshold,
            ;
        }
    }
}

/// The sum of squares of a constant signal.
pub proof fn lemma_sum_squares_constant(samples: Seq<i32>, amplitude: i32)
    requires
        forall|i: int| 0 <= i < samples.len() ==> samples[i] == amplitude,
    ensures
        sum_squares(samples) == magnitude(amplitude) * magnitude(amplitude) * samples.len(),
    decreases samples.len(),
{
    let m = magnitude(amplitude);
    if samples.len() > 0 {
        lemma_sum_squares_constant(samples.drop_last(), amplitude);
        let n = samples.len();
        assert(m * m * (n - 1) as nat + m * m == m * m * n) by (nonlinear_arith)
            requires
                n > 0,
        ;
    } else {
        assert(m * m * 0 == 0) by (nonlinear_arith);
    }
}

/// Silence of any length is never active.
pub proof fn lemma_silence_is_inactive(samples: Seq<i32>, threshold: nat)
    requires
        forall|i: int| 0 <= i < samples.len() ==> samples[i] == 0,
    ensures
        !energy_exceeds(samples, threshold),
        is_energy(samples, 0),
{
    lemma_sum_squares_constant(samples, 0);
    assert(0 * 0 * samples.len() == 0) by (nonlinear_arith);
    assert(threshold * threshold * samples.len() >= 0) by (nonlinear_arith);
}

/// The energy of a constant signal is the magnitude of its amplitude, so a
/// non-empty constant signal is active when that magnitude lies above the
/// threshold.
pub proof fn lemma_constant_signal_is_active(samples: Seq<i32>, amplitude: i32, threshold: nat)
    requires
        samples.len() > 0,
        forall|i: int| 0 <= i < samples.len() ==> samples[i] == amplitude,
    ensures
        is_energy(samples, magnitude(amplitude)),
        magnitude(amplitude) > threshold ==> energy_exceeds(samples, threshold),
{
    lemma_sum_squares_constant(samples, amplitude);
    let m = magnitude(amplitude);
    let n = samples.len();
    if m > 0 {
        let below = (m - 1) as nat;
        assert(below * below * n < m * m * n) by (nonlinear_arith)
            requires
                below + 1 == m,
                n > 0,
        ;
    }
    lemma_energy_decides(samples, m, threshold);
}

/// The energy of a window: its root mean square, rounded up to the next
/// integer. An empty window has energy zero.
pub fn calculate_energy(samples: &[i32]) -> (energy: u32)
    ensures
        is_energy(samples@, energy as nat),
        energy <= 0x8000_0000,
{
    let n = samples.len();
    if n == 0 {
        return 0;
    }
    let mut sum: u128 = 0;
    let mut i: usize = 0;
    while i < n
        invariant
            0 <= i <= n,
            n == samples@.len(),
            sum == sum_squares(samples@.subrange(0, i as int)),
            sum <= i * 0x4000_0000_0000_0000,
        decreases n - i,
    {
        let x: i64 = samples[i] as i64;
        let m: u64 = if x < 0 {
            (-x) as u64
        } else {
            x as u64
        };
        proof {
            let next = samples@.subrange(0, i + 1);
            assert(next.drop_last() =~= samples@.subrange(0, i as int));
            assert(m == magnitude(samples@[i as int]));
            assert(m * m <= 0x4000_0000_0000_0000) by (nonlinear_arith)
                requires
                    m <= 0x8000_0000,
            ;
            lemma_sum_squares_bound(next);
        }
        sum = sum + (m * m) as u128;
        i = i + 1;
    }
    proof {
        assert(samples@.subrange(0, n as int) =~= samples@);
    }
    let count: u128 = n as u128;
    let mut lo: u64 = 0;
    let mut hi: u64 = 0x8000_0000;
    proof {
        assert(hi * hi * count >= sum) by (nonlinear_arith)
            requires
                hi == 0x8000_0000,
                sum <= count * 0x4000_0000_0000_0000,
        ;
    }
    while lo < hi
        invariant
            0 <= lo <= hi <= 0x8000_0000,
            0 < count <= usize::MAX,
            count == samples@.len(),
            sum == sum_squares(samples@),
            hi * hi * count >= sum,
            lo > 0 ==> (lo - 1) * (lo - 1) * count < sum,
        decreases hi - lo,
    {
        let mid: u64 = lo + (hi - lo) / 2;
        proof {
            assert(mid * mid <= 0x4000_0000_0000_0000) by (nonlinear_arith)
                requires
                    mid <= 0x8000_0000,
            ;
            assert(mid * mid * count <= 0x4000_0000_0000_0000 * 0x1_0000_0000_0000_0000)
                by (nonlinear_arith)
                requires
                    mid * mid <= 0x4000_0000_0000_0000,
                    count <= 0x1_0000_0000_0000_0000,
            ;
        }
        let square: u128 = (mid * mid) as u128;
        if square * count >= sum {
            hi = mid;
        } else {
            lo = mid + 1;
        }
    }
    lo as u32
}

/// Whether the energy of `samples` lies strictly above `threshold`.
pub fn has_voice_activity(samples: &[i32], threshold: u32) -> (active: bool)
    ensures
        active == energy_exceeds(samples@, threshold as nat),
{
    let energy = calculate_energy(samples);
    proof {
        lemma_energy_decides(samples@, energy as nat, threshold as nat);
    }
    energy > threshold
}

} // verus!
