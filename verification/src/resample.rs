//! Channel downmix and linear-interpolation resampling.
//!
//! Both round down: a quotient that is no integer yields the next smaller
//! sample value.
use vstd::arithmetic::div_mod::*;
use vstd::prelude::*;

verus! {

/// The sum of the samples.
pub open spec fn sum(samples: Seq<i32>) -> int
    decreases samples.len(),
{
    if samples.len() == 0 {
        0
    } else {
        sum(samples.drop_last()) + samples.last()
    }
}

/// The arithmetic mean of a non-empty frame, rounded down.
pub open spec fn frame_mean(frame: Seq<i32>) -> int {
    sum(frame) / (frame.len() as int)
}

/// Interleaved frames of `channels` samples each averaged into one sample.
/// A last frame that is short is averaged over the samples it has. With at
/// most one channel there is nothing to mix.
pub open spec fn downmixed(samples: Seq<i32>, channels: nat) -> Seq<i32>
    decreases samples.len(),
{
    if channels <= 1 || samples.len() == 0 {
        samples
    } else {
        let cut = if samples.len() < channels {
            samples.len() as int
        } else {
            channels as int
        };
        seq![frame_mean(samples.subrange(0, cut)) as i32] + downmixed(
            samples.subrange(cut, samples.len() as int),
            channels,
        )
    }
}

/// Number of samples that `len` samples at `from_rate` become at `to_rate`.
pub open spec fn resampled_len(len: nat, from_rate: nat, to_rate: nat) -> nat {
    (len * to_rate / from_rate) as nat
}

/// The value `weight / scale` of the way from `a` to `b`, rounded down.
pub open spec fn blend(a: i32, b: i32, weight: nat, scale: nat) -> int {
    (a * (scale - weight) + b * weight) / (scale as int)
}

/// Output sample `i`: it lies at source position `i * from_rate / to_rate`
/// and is blended from the two source samples around that position. At the
/// end of the source the last sample stands alone.
pub open spec fn resampled_at(samples: Seq<i32>, from_rate: nat, to_rate: nat, i: int) -> int {
    let position = i * from_rate;
    let index = position / (to_rate as int);
    let weight = (position % (to_rate as int)) as nat;
    if index + 1 < samples.len() {
        blend(samples[index], samples[index + 1], weight, to_rate)
    } else if index < samples.len() {
        samples[index] as int
    } else {
        samples[samples.len() - 1] as int
    }
}

/// `samples` converted from `from_rate` to `to_rate` by linear interpolation.
pub open spec fn resampled(samples: Seq<i32>, from_rate: nat, to_rate: nat) -> Seq<i32> {
    Seq::new(
        resampled_len(samples.len(), from_rate, to_rate),
        |i: int| resampled_at(samples, from_rate, to_rate, i) as i32,
    )
}

/// The sum of a frame lies between its length times the least and the
/// greatest sample value.
pub proof fn lemma_sum_bounds(samples: Seq<i32>)
    ensures
        -0x8000_0000 * samples.len() <= sum(samples) <= 0x7fff_ffff * samples.len(),
    decreases samples.len(),
{
    if samples.len() > 0 {
        lemma_sum_bounds(samples.drop_last());
    }
}

/// A total between `count` times the least and the greatest sample value
/// has a quotient that is a sample.
pub proof fn lemma_quotient_bounds(total: int, count: int)
    requires
        count > 0,
        -0x8000_0000 * count <= total <= 0x7fff_ffff * count,
    ensures
        -0x8000_0000 <= total / count <= 0x7fff_ffff,
{
    lemma_fundamental_div_mod(total, count);
    let q = total / count;
    let r = total % count;
    assert(0 <= r < count);
    assert(-0x8000_0000 <= q <= 0x7fff_ffff) by (nonlinear_arith)
        requires
            total == count * q + r,
            0 <= r < count,
            -0x8000_0000 * count <= total <= 0x7fff_ffff * count,
    ;
}

/// Resampling to the rate that the samples already have changes nothing.
pub proof fn lemma_resample_identity(samples: Seq<i32>, rate: nat)
    requires
        rate > 0,
    ensures
        resampled(samples, rate, rate) == samples,
{
    let out = resampled(samples, rate, rate);
    lemma_div_multiples_vanish(samples.len() as int, rate as int);
    assert(samples.len() * rate == rate * samples.len()) by (nonlinear_arith);
    assert(out.len() == samples.len());
    assert forall|i: int| 0 <= i < samples.len() implies out[i] == samples[i] by {
        lemma_div_multiples_vanish(i, rate as int);
        lemma_mod_multiples_basic(i, rate as int);
        assert(i * rate == rate * i) by (nonlinear_arith);
        if i + 1 < samples.len() {
            let a = samples[i];
            let b = samples[i + 1];
            assert(a * (rate - 0) + b * 0 == rate * a) by (nonlinear_arith);
            lemma_div_multiples_vanish(a as int, rate as int);
        }
    }
    assert(out =~= samples);
}

/// Resampling to half the rate halves the number of samples, rounding down.
pub proof fn lemma_resample_halves(samples: Seq<i32>, from_rate: nat, to_rate: nat)
    requires
        to_rate > 0,
        from_rate == 2 * to_rate,
    ensures
        resampled(samples, from_rate, to_rate).len() == samples.len() / 2,
{
    let len = samples.len() as int;
    lemma_fundamental_div_mod(len, 2);
    let q = len / 2;
    let r = len % 2;
    assert(len * to_rate == (2 * to_rate) * q + r * to_rate) by (nonlinear_arith)
        requires
            len == 2 * q + r,
    ;
    assert(0 <= r * to_rate < 2 * to_rate) by (nonlinear_arith)
        requires
            0 <= r < 2,
            to_rate > 0,
    ;
    lemma_fundamental_div_mod_converse(
        len * to_rate,
        from_rate as int,
        q,
        r * to_rate,
    );
}

/// `total / count`, rounded down, for a total whose quotient is a sample.
fn floor_quotient(total: i128, count: u64) -> (quotient: i32)
    requires
        count > 0,
        -0x8000_0000 * count <= total <= 0x7fff_ffff * count,
    ensures
        quotient == total as int / count as int,
{
    let offset: i128 = 0x8000_0000 * (count as i128);
    let shifted: u128 = (total + offset) as u128;
    let divisor: u128 = count as u128;
    let q: u128 = shifted / divisor;
    let r: u128 = shifted % divisor;
    proof {
        lemma_fundamental_div_mod(shifted as int, divisor as int);
        lemma_quotient_bounds(total as int, count as int);
        assert(total == count * (q - 0x8000_0000) + r) by (nonlinear_arith)
            requires
                shifted == divisor * q + r,
                shifted == total + 0x8000_0000 * count,
                divisor == count,
        ;
        lemma_fundamental_div_mod_converse(
            total as int,
            count as int,
            q as int - 0x8000_0000,
            r as int,
        );
    }
    (q as i64 - 0x8000_0000) as i32
}

/// Averages each frame of `channels` interleaved samples into one sample.
/// With at most one channel the samples come back as they are.
pub fn downmix(samples: Vec<i32>, channels: u16) -> (mono: Vec<i32>)
    ensures
        mono@ == downmixed(samples@, channels as nat),
{
    if channels <= 1 {
        return samples;
    }
    let width: usize = channels as usize;
    let len = samples.len();
    let mut mono: Vec<i32> = Vec::new();
    let mut start: usize = 0;
    proof {
        assert(samples@.subrange(0, len as int) =~= samples@);
    }
    while start < len
        invariant
            0 <= start <= len,
            len == samples@.len(),
            width == channels,
            width > 1,
            mono@ + downmixed(samples@.subrange(start as int, len as int), width as nat)
                == downmixed(samples@, width as nat),
        decreases len - start,
    {
        let end: usize = if len - start < width {
            len
        } else {
            start + width
        };
        let mut total: i64 = 0;
        let mut j: usize = start;
        while j < end
            invariant
                start <= j <= end <= len,
                end - start <= width,
                width == channels,
                len == samples@.len(),
                total == sum(samples@.subrange(start as int, j as int)),
                -0x8000_0000 * (j - start) <= total <= 0x7fff_ffff * (j - start),
            decreases end - j,
        {
            proof {
                let next = samples@.subrange(start as int, j + 1);
                assert(next.drop_last() =~= samples@.subrange(start as int, j as int));
            }
            total = total + samples[j] as i64;
            j = j + 1;
        }
        let count: u64 = (end - start) as u64;
        let mean = floor_quotient(total as i128, count);
        proof {
            let rest = samples@.subrange(start as int, len as int);
            let cut = end - start;
            assert(rest.subrange(0, cut) =~= samples@.subrange(start as int, end as int));
            assert(rest.subrange(cut, rest.len() as int) =~= samples@.subrange(
                end as int,
                len as int,
            ));
            assert(downmixed(rest, width as nat) == seq![mean] + downmixed(
                samples@.subrange(end as int, len as int),
                width as nat,
            ));
            assert(mono@.push(mean) + downmixed(
                samples@.subrange(end as int, len as int),
                width as nat,
            ) =~= mono@ + downmixed(rest, width as nat));
        }
        mono.push(mean);
        start = end;
    }
    proof {
        assert(mono@ + downmixed(samples@.subrange(len as int, len as int), width as nat)
            =~= mono@);
    }
    mono
}

/// Converts `samples` from `from_rate` to `to_rate` by linear interpolation.
pub fn resample_audio(samples: &[i32], from_rate: u32, to_rate: u32) -> (out: Vec<i32>)
    requires
        from_rate > 0,
        resampled_len(samples@.len(), from_rate as nat, to_rate as nat) <= usize::MAX,
    ensures
        out@ == resampled(samples@, from_rate as nat, to_rate as nat),
{
    let len = samples.len();
    proof {
        assert(len * to_rate <= 0x1_0000_0000_0000_0000 * 0x1_0000_0000) by (nonlinear_arith)
            requires
                len <= 0x1_0000_0000_0000_0000,
                to_rate <= 0x1_0000_0000,
        ;
    }
    let product: u128 = len as u128 * to_rate as u128;
    let new_len: usize = (product / from_rate as u128) as usize;
    let mut out: Vec<i32> = Vec::new();
    let mut i: usize = 0;
    while i < new_len
        invariant
            0 <= i <= new_len,
            len == samples@.len(),
            from_rate > 0,
            new_len == resampled_len(samples@.len(), from_rate as nat, to_rate as nat),
            out@ == resampled(samples@, from_rate as nat, to_rate as nat).subrange(0, i as int),
        decreases new_len - i,
    {
        proof {
            if to_rate == 0 {
                assert(len * 0 == 0) by (nonlinear_arith);
            }
            if len == 0 {
                assert(0 * to_rate == 0) by (nonlinear_arith);
            }
            assert(i * from_rate <= 0x1_0000_0000_0000_0000 * 0x1_0000_0000) by (nonlinear_arith)
                requires
                    i <= 0x1_0000_0000_0000_0000,
                    from_rate <= 0x1_0000_0000,
            ;
        }
        let scale: u128 = to_rate as u128;
        let position: u128 = i as u128 * from_rate as u128;
        let index: u128 = position / scale;
        let weight: u128 = position % scale;
        let value: i32 = if index + 1 < len as u128 {
            let a: i128 = samples[index as usize] as i128;
            let b: i128 = samples[index as usize + 1] as i128;
            let rest: i128 = (scale - weight) as i128;
            let w: i128 = weight as i128;
            proof {
                assert(-0x8000_0000 * scale <= a * rest + b * w <= 0x7fff_ffff * scale
                    && -0x8000_0000 * 0x1_0000_0000 <= a * rest <= 0x8000_0000 * 0x1_0000_0000
                    && -0x8000_0000 * 0x1_0000_0000 <= b * w <= 0x8000_0000 * 0x1_0000_0000)
                    by (nonlinear_arith)
                    requires
                        -0x8000_0000 <= a <= 0x7fff_ffff,
                        -0x8000_0000 <= b <= 0x7fff_ffff,
                        rest + w == scale,
                        0 <= w,
                        0 < rest,
                        scale <= 0x1_0000_0000,
                ;
            }
            floor_quotient(a * rest + b * w, to_rate as u64)
        } else if index < len as u128 {
            samples[index as usize]
        } else {
            samples[len - 1]
        };
        out.push(value);
        i = i + 1;
        proof {
            let all = resampled(samples@, from_rate as nat, to_rate as nat);
            assert(out@ =~= all.subrange(0, i as int));
        }
    }
    proof {
        let all = resampled(samples@, from_rate as nat, to_rate as nat);
        assert(out@ =~= all);
    }
    out
}

} // verus!
