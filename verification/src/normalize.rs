//! The format normalizer: collapsing interleaved multi-channel frames to
//! mono in the samples' own numeric domain.
//!
//! An incoming buffer of native samples holds interleaved frames: its
//! length is an exact multiple of the channel count, and each frame of
//! `channels` consecutive samples is averaged into one mono sample (the
//! sum divided by the channel count, in native integer arithmetic with
//! truncating division). A buffer whose length is not a multiple of the
//! channel count means the device-configuration handshake is already
//! inconsistent: that is a contract violation of the caller, not a
//! recoverable condition.
//!
//! Conversion of the mono samples to the canonical float format happens
//! at the system edge, after this step; floats never enter the library.

use vstd::prelude::*;

verus! {

use vstd::arithmetic::div_mod::{
    lemma_div_is_ordered,
    lemma_div_multiples_vanish,
    lemma_div_nonincreasing,
    lemma_div_pos_is_pos,
    lemma_fundamental_div_mod,
    lemma_mod_multiples_vanish,
    lemma_small_mod,
};
use vstd::arithmetic::mul::{lemma_mul_inequality, lemma_mul_nonnegative};

use crate::sample::CustomSample;

/// The native sample encodings a capture device may report. An encoding
/// outside this set cannot be dispatched and fails with a format error.
#[derive(Clone, Copy, Debug, PartialEq, Eq, Structural)]
pub enum SampleEncoding {
    I8,
    I16,
    I32,
    I64,
    U8,
    U16,
    U32,
    U64,
    F32,
    F64,
}

impl SampleEncoding {
    /// The size of one sample of this encoding, in bytes.
    pub open spec fn spec_sample_size(&self) -> u32 {
        match self {
            SampleEncoding::I8 => 1,
            SampleEncoding::U8 => 1,
            SampleEncoding::I16 => 2,
            SampleEncoding::U16 => 2,
            SampleEncoding::I32 => 4,
            SampleEncoding::U32 => 4,
            SampleEncoding::F32 => 4,
            SampleEncoding::I64 => 8,
            SampleEncoding::U64 => 8,
            SampleEncoding::F64 => 8,
        }
    }

    /// The size of one sample of this encoding, in bytes.
    pub fn sample_size(&self) -> (n: u32)
        ensures
            n == self.spec_sample_size(),
    {
        match self {
            SampleEncoding::I8 => 1,
            SampleEncoding::U8 => 1,
            SampleEncoding::I16 => 2,
            SampleEncoding::U16 => 2,
            SampleEncoding::I32 => 4,
            SampleEncoding::U32 => 4,
            SampleEncoding::F32 => 4,
            SampleEncoding::I64 => 8,
            SampleEncoding::U64 => 8,
            SampleEncoding::F64 => 8,
        }
    }
}

/// Division truncating toward zero — the semantics of the native `/`
/// operator the downmix divides with.
pub open spec fn div_trunc(a: int, b: int) -> int
    recommends
        b > 0,
{
    if a >= 0 {
        a / b
    } else {
        -((-a) / b)
    }
}

/// The sum of the `count` consecutive elements of `s` starting at `start`.
pub open spec fn sum_range(s: Seq<int>, start: int, count: nat) -> int
    recommends
        0 <= start,
        start + count <= s.len(),
    decreases count,
{
    if count == 0 {
        0
    } else {
        sum_range(s, start, (count - 1) as nat) + s[start + count - 1]
    }
}

/// The values of a buffer of native samples.
pub open spec fn sample_values<T: CustomSample>(s: Seq<T>) -> Seq<int> {
    s.map_values(|x: T| x.as_int())
}

/// What downmixing an interleaved buffer to mono yields: one sample per
/// frame of `channels` consecutive input samples, holding the frame's
/// arithmetic mean (truncating division, as the native domain divides).
pub open spec fn mono_spec(s: Seq<int>, channels: nat) -> Seq<int>
    recommends
        channels > 0,
{
    Seq::new(
        s.len() / channels,
        |k: int| div_trunc(sum_range(s, k * (channels as int), channels), channels as int),
    )
}

/// The sum of `count` elements, each within `[lo, hi]`, lies within
/// `[count * lo, count * hi]`.
pub proof fn lemma_sum_range_bounds(s: Seq<int>, start: int, count: nat, lo: int, hi: int)
    requires
        forall|i: int| start <= i < start + count ==> lo <= #[trigger] s[i] <= hi,
    ensures
        count * lo <= sum_range(s, start, count) <= count * hi,
    decreases count,
{
    if count == 0 {
        assert(count * lo == 0) by (nonlinear_arith)
            requires
                count == 0,
        ;
        assert(count * hi == 0) by (nonlinear_arith)
            requires
                count == 0,
        ;
    } else {
        lemma_sum_range_bounds(s, start, (count - 1) as nat, lo, hi);
        assert(count * lo == (count - 1) * lo + lo) by (nonlinear_arith)
            requires
                count >= 1,
        ;
        assert(count * hi == (count - 1) * hi + hi) by (nonlinear_arith)
            requires
                count >= 1,
        ;
        assert(lo <= s[start + count - 1] <= hi);
    }
}

/// Truncating division by `c` maps a sum within `[c * lo, c * hi]` into
/// `[lo, hi]`.
pub proof fn lemma_div_trunc_bounds(sum: int, c: int, lo: int, hi: int)
    requires
        0 < c,
        c * lo <= sum <= c * hi,
    ensures
        lo <= div_trunc(sum, c) <= hi,
{
    if sum >= 0 {
        lemma_div_is_ordered(c * lo, sum, c);
        lemma_div_is_ordered(sum, c * hi, c);
        lemma_div_multiples_vanish(lo, c);
        lemma_div_multiples_vanish(hi, c);
    } else {
        assert(-(c * lo) == c * (-lo)) by (nonlinear_arith);
        lemma_div_is_ordered(-sum, c * (-lo), c);
        lemma_div_multiples_vanish(-lo, c);
        if hi >= 0 {
            lemma_div_pos_is_pos(-sum, c);
        } else {
            assert(-(c * hi) == c * (-hi)) by (nonlinear_arith);
            lemma_div_is_ordered(c * (-hi), -sum, c);
            lemma_div_multiples_vanish(-hi, c);
        }
    }
}

/// Law: the downmix output is bounded by the input — it has one sample
/// per frame (input length divided by the channel count), and every
/// output sample lies within any range `[lo, hi]` that bounds every
/// input sample. In particular the mono samples of an encoding stay
/// within that encoding's native range, which the conversion to the
/// canonical format then maps into the canonical range.
pub proof fn lemma_mono_spec_bounds(s: Seq<int>, channels: nat, lo: int, hi: int)
    requires
        channels > 0,
        s.len() % channels == 0,
        forall|i: int| 0 <= i < s.len() ==> lo <= #[trigger] s[i] <= hi,
    ensures
        mono_spec(s, channels).len() == s.len() / channels,
        forall|k: int|
            0 <= k < mono_spec(s, channels).len() ==> lo <= #[trigger] mono_spec(s, channels)[k]
                <= hi,
    {
    let ch = channels as int;
    let n = s.len() as int;
    assert forall|k: int|
        0 <= k < mono_spec(s, channels).len() implies lo <= #[trigger] mono_spec(s, channels)[k]
        <= hi by {
        lemma_fundamental_div_mod(n, ch);
        lemma_mul_inequality(k + 1, n / ch, ch);
        lemma_mul_nonnegative(k, ch);
        assert((k + 1) * ch == k * ch + ch) by (nonlinear_arith);
        assert(forall|i: int| k * ch <= i < k * ch + ch ==> lo <= #[trigger] s[i] <= hi);
        lemma_sum_range_bounds(s, k * ch, channels, lo, hi);
        lemma_div_trunc_bounds(sum_range(s, k * ch, channels), ch, lo, hi);
    }
}

/// Law: downmixing a buffer of exactly `channels * k` interleaved samples
/// yields exactly `k` mono samples.
pub proof fn lemma_downmix_len(s: Seq<int>, channels: nat, k: nat)
    requires
        channels > 0,
        s.len() == channels * k,
    ensures
        mono_spec(s, channels).len() == k,
{
    lemma_div_multiples_vanish(k as int, channels as int);
}

/// Downmixes a buffer of interleaved frames to mono in the wide integer
/// domain every native integer encoding embeds into.
fn mono_wide(data: &Vec<i128>, channels: u16) -> (out: Vec<i128>)
    requires
        channels > 0,
        data@.len() as int % (channels as int) == 0,
        forall|i: int|
            0 <= i < data@.len() ==> -0x8000_0000_0000_0000 <= #[trigger] data@[i]
                <= 0xFFFF_FFFF_FFFF_FFFF,
    ensures
        out@.map_values(|x: i128| x as int) == mono_spec(
            data@.map_values(|x: i128| x as int),
            channels as nat,
        ),
{
    let ghost ints = data@.map_values(|x: i128| x as int);
    let ch: usize = channels as usize;
    let n = data.len();
    let mut out: Vec<i128> = Vec::new();
    let mut pos: usize = 0;
    proof {
        vstd::arithmetic::mul::lemma_mul_basics(channels as int);
    }
    while pos < n
        invariant
            channels > 0,
            ch == channels as usize,
            n == data@.len(),
            ints == data@.map_values(|x: i128| x as int),
            forall|i: int|
                0 <= i < data@.len() ==> -0x8000_0000_0000_0000 <= #[trigger] data@[i]
                    <= 0xFFFF_FFFF_FFFF_FFFF,
            pos <= data@.len(),
            (data@.len() - pos) as int % (channels as int) == 0,
            pos as int == out@.len() * (channels as int),
            forall|j: int|
                0 <= j < out@.len() ==> (#[trigger] out@[j]) as int == div_trunc(
                    sum_range(ints, j * (channels as int), channels as nat),
                    channels as int,
                ),
        decreases data@.len() - pos,
    {
        proof {
            if data@.len() - pos < channels as int {
                lemma_small_mod((data@.len() - pos) as nat, channels as nat);
            }
        }
        let mut sum: i128 = 0;
        let mut j: usize = 0;
        while j < ch
            invariant
                channels > 0,
                ch == channels as usize,
                n == data@.len(),
                ints == data@.map_values(|x: i128| x as int),
                forall|i: int|
                    0 <= i < data@.len() ==> -0x8000_0000_0000_0000 <= #[trigger] data@[i]
                        <= 0xFFFF_FFFF_FFFF_FFFF,
                pos + ch <= n,
                j <= ch,
                sum as int == sum_range(ints, pos as int, j as nat),
                -0x8000_0000_0000_0000 * (j as int) <= sum as int <= 0xFFFF_FFFF_FFFF_FFFF * (
                j as int),
            decreases ch - j,
        {
            sum = sum + data[pos + j];
            j = j + 1;
        }
        let mean: i128 = if sum >= 0 {
            proof {
                lemma_div_nonincreasing(sum as int, channels as int);
                lemma_div_pos_is_pos(sum as int, channels as int);
            }
            ((sum as u128) / (ch as u128)) as i128
        } else {
            proof {
                lemma_div_nonincreasing(-(sum as int), channels as int);
                lemma_div_pos_is_pos(-(sum as int), channels as int);
            }
            -((((-sum) as u128) / (ch as u128)) as i128)
        };
        proof {
            assert(mean as int == div_trunc(sum_range(ints, pos as int, channels as nat),
                channels as int));
        }
        out.push(mean);
        proof {
            lemma_mod_multiples_vanish(-1, data@.len() - pos as int, channels as int);
            assert(out@.len() * (channels as int) == (out@.len() - 1) * (channels as int)
                + channels) by (nonlinear_arith);
        }
        pos = pos + ch;
    }
    proof {
        lemma_div_multiples_vanish(out@.len() as int, channels as int);
        assert(out@.map_values(|x: i128| x as int) =~= mono_spec(ints, channels as nat));
    }
    out
}

/// Converts multi-channel audio data to mono by averaging each frame of
/// `channels` consecutive samples, in the samples' own numeric domain.
/// The buffer's length must be an exact multiple of the channel count:
/// anything else is a caller error, not a runtime condition.
pub fn channels_to_mono<T: CustomSample>(stereo_data: Vec<T>, channels: u16) -> (mono_data: Vec<T>)
    requires
        channels > 0,
        stereo_data@.len() as int % (channels as int) == 0,
    ensures
        mono_data@.len() == stereo_data@.len() as int / (channels as int),
        sample_values(mono_data@) == mono_spec(sample_values(stereo_data@), channels as nat),
{
    let ghost ints = sample_values(stereo_data@);
    let mut wide: Vec<i128> = Vec::new();
    let mut i: usize = 0;
    while i < stereo_data.len()
        invariant
            i <= stereo_data@.len(),
            wide@.len() == i,
            forall|j: int| 0 <= j < i ==> (#[trigger] wide@[j]) as int == stereo_data@[j].as_int(),
            forall|j: int|
                0 <= j < i ==> -0x8000_0000_0000_0000 <= #[trigger] wide@[j]
                    <= 0xFFFF_FFFF_FFFF_FFFF,
        decreases stereo_data@.len() - i,
    {
        let w = stereo_data[i].to_wide();
        proof {
            stereo_data@[i as int].lemma_bounds();
        }
        wide.push(w);
        i = i + 1;
    }
    proof {
        assert(wide@.map_values(|x: i128| x as int) =~= ints);
    }
    let wide_mono = mono_wide(&wide, channels);
    proof {
        assert forall|j: int| 0 <= j < stereo_data@.len() implies T::min_int()
            <= #[trigger] ints[j] <= T::max_int() by {
            stereo_data@[j].lemma_bounds();
        }
        lemma_mono_spec_bounds(ints, channels as nat, T::min_int(), T::max_int());
        assert forall|j: int| 0 <= j < wide_mono@.len() implies T::min_int()
            <= (#[trigger] wide_mono@[j]) as int <= T::max_int() by {
            assert(wide_mono@[j] as int == mono_spec(ints, channels as nat)[j]);
        }
    }
    let mut mono_data: Vec<T> = Vec::new();
    let mut k: usize = 0;
    while k < wide_mono.len()
        invariant
            k <= wide_mono@.len(),
            mono_data@.len() == k,
            wide_mono@.map_values(|x: i128| x as int) == mono_spec(ints, channels as nat),
            forall|j: int|
                0 <= j < wide_mono@.len() ==> T::min_int() <= (#[trigger] wide_mono@[j]) as int
                    <= T::max_int(),
            forall|j: int|
                0 <= j < k ==> #[trigger] mono_data@[j].as_int() == wide_mono@[j] as int,
        decreases wide_mono@.len() - k,
    {
        let s = T::from_wide(wide_mono[k]);
        mono_data.push(s);
        k = k + 1;
    }
    proof {
        assert(sample_values(mono_data@) =~= mono_spec(ints, channels as nat));
    }
    mono_data
}

} // verus!
