//! Stream synchronization: merging the two per-side sample queues into one
//! interleaved stream.
//!
//! The dual-stream paths drain an input-side queue and an output-side queue
//! and emit chunks in which even positions come from the input side and odd
//! positions from the output side. A side that cannot supply enough samples
//! is padded with equilibrium (silence) samples: short-term starvation
//! degrades to silence instead of blocking or dropping the whole chunk.

use vstd::prelude::*;

verus! {

use crate::queue::SampleQueue;
use crate::sample::{equilibrium, equilibrium_sample, CanonSample};

/// What one side contributes to a merged chunk of length `n`: its first
/// `n` buffered samples, in order, padded at the tail with equilibrium
/// samples when fewer than `n` are buffered.
pub open spec fn padded_take(q: Seq<CanonSample>, n: nat) -> Seq<CanonSample> {
    Seq::new(
        n,
        |i: int|
            if i < q.len() {
                q[i]
            } else {
                equilibrium()
            },
    )
}

/// Two equally long sides interleaved element-wise: even positions from
/// `a`, odd positions from `b`.
pub open spec fn interleaved(a: Seq<CanonSample>, b: Seq<CanonSample>) -> Seq<CanonSample>
    recommends
        a.len() == b.len(),
{
    Seq::new(
        a.len() * 2,
        |i: int|
            if i % 2 == 0 {
                a[i / 2]
            } else {
                b[i / 2]
            },
    )
}

/// The chunk one synchronizer step emits: `n` samples taken from each
/// side, each side padded with equilibrium on underrun, interleaved.
pub open spec fn merged_chunk(inq: Seq<CanonSample>, outq: Seq<CanonSample>, n: nat) -> Seq<
    CanonSample,
> {
    interleaved(padded_take(inq, n), padded_take(outq, n))
}

/// Law: underrun degrades to silence. Every slot of a merged chunk that a
/// starved side cannot fill holds the equilibrium sample — never garbage,
/// and the chunk is never truncated. In particular a side with nothing
/// buffered contributes equilibrium in every one of its slots.
pub proof fn lemma_underrun_equilibrium(inq: Seq<CanonSample>, outq: Seq<CanonSample>, n: nat)
    ensures
        merged_chunk(inq, outq, n).len() == 2 * n,
        forall|i: int|
            inq.len() <= i < n ==> #[trigger] merged_chunk(inq, outq, n)[2 * i] == equilibrium(),
        forall|i: int|
            outq.len() <= i < n ==> #[trigger] merged_chunk(inq, outq, n)[2 * i + 1]
                == equilibrium(),
{
    assert forall|i: int| inq.len() <= i < n implies #[trigger] merged_chunk(inq, outq, n)[2 * i]
        == equilibrium() by {
        assert((2 * i) % 2 == 0 && (2 * i) / 2 == i);
    }
    assert forall|i: int| outq.len() <= i < n implies #[trigger] merged_chunk(inq, outq, n)[2 * i
        + 1] == equilibrium() by {
        assert((2 * i + 1) % 2 == 1 && (2 * i + 1) / 2 == i);
    }
}

/// Pops up to `n` samples from the front of `q` into a buffer of exactly
/// `n` samples, filling the unfilled tail with equilibrium samples. This
/// is the underrun policy of the merge stage: a starved side contributes
/// silence, never garbage and never a short chunk.
pub fn drain_padded(q: &mut SampleQueue, n: usize) -> (out: Vec<CanonSample>)
    ensures
        out@ == padded_take(old(q)@, n as nat),
        final(q)@ == old(q)@.skip(vstd::math::min(n as int, old(q)@.len() as int)),
        final(q).spec_capacity() == old(q).spec_capacity(),
{
    let mut out: Vec<CanonSample> = Vec::new();
    let mut i: usize = 0;
    while i < n
        invariant
            i <= n,
            out@.len() == i,
            q.spec_capacity() == old(q).spec_capacity(),
            q@ == old(q)@.skip(vstd::math::min(i as int, old(q)@.len() as int)),
            forall|j: int|
                0 <= j < i ==> out@[j] == (if j < old(q)@.len() {
                    old(q)@[j]
                } else {
                    equilibrium()
                }),
        decreases n - i,
    {
        match q.pop() {
            Some(s) => {
                proof {
                    assert(q@ =~= old(q)@.skip(vstd::math::min((i + 1) as int, old(q)@.len() as int)));
                }
                out.push(s);
            },
            None => {
                out.push(equilibrium_sample());
            },
        }
        i = i + 1;
    }
    proof {
        assert(out@ =~= padded_take(old(q)@, n as nat));
    }
    out
}

/// Interleaves two equally long buffers element-wise.
pub fn interleave(a: &Vec<CanonSample>, b: &Vec<CanonSample>) -> (out: Vec<CanonSample>)
    requires
        a@.len() == b@.len(),
        a@.len() * 2 <= usize::MAX,
    ensures
        out@ == interleaved(a@, b@),
{
    let mut out: Vec<CanonSample> = Vec::new();
    let mut i: usize = 0;
    while i < a.len()
        invariant
            a@.len() == b@.len(),
            a@.len() * 2 <= usize::MAX,
            i <= a@.len(),
            out@.len() == 2 * i,
            forall|j: int| 0 <= j < i ==> out@[2 * j] == a@[j] && out@[2 * j + 1] == b@[j],
        decreases a@.len() - i,
    {
        out.push(a[i]);
        out.push(b[i]);
        i = i + 1;
    }
    proof {
        assert forall|k: int| 0 <= k < out@.len() implies out@[k] == interleaved(a@, b@)[k] by {
            let j = k / 2;
            assert(out@[2 * j] == a@[j] && out@[2 * j + 1] == b@[j]);
        }
        assert(out@ =~= interleaved(a@, b@));
    }
    out
}

/// One polling step of the stream synchronizer on the resampling path.
/// When either side has buffered at least `target_rate` samples, both
/// sides are drained (padding a starved side with equilibrium) and the
/// merged, interleaved chunk is returned for delivery; otherwise nothing
/// is consumed and the caller sleeps until the next poll.
pub fn sync_step(input_q: &mut SampleQueue, output_q: &mut SampleQueue, target_rate: usize) -> (chunk:
    Option<Vec<CanonSample>>)
    requires
        target_rate * 2 <= usize::MAX,
    ensures
        final(input_q).spec_capacity() == old(input_q).spec_capacity(),
        final(output_q).spec_capacity() == old(output_q).spec_capacity(),
        (chunk is Some) == (old(input_q)@.len() >= target_rate || old(output_q)@.len()
            >= target_rate),
        chunk is None ==> final(input_q)@ == old(input_q)@ && final(output_q)@ == old(output_q)@,
        chunk matches Some(c) ==> {
            &&& c@ == merged_chunk(old(input_q)@, old(output_q)@, target_rate as nat)
            &&& final(input_q)@ == old(input_q)@.skip(
                vstd::math::min(target_rate as int, old(input_q)@.len() as int),
            )
            &&& final(output_q)@ == old(output_q)@.skip(
                vstd::math::min(target_rate as int, old(output_q)@.len() as int),
            )
        },
{
    if input_q.occupied_len() >= target_rate || output_q.occupied_len() >= target_rate {
        let input_buffer = drain_padded(input_q, target_rate);
        let output_buffer = drain_padded(output_q, target_rate);
        let data = interleave(&input_buffer, &output_buffer);
        Some(data)
    } else {
        None
    }
}

/// The latency cushion of the passthrough path, in samples: 150 ms at the
/// given sample rate, scaled by the channel count of the stream
/// configuration.
pub open spec fn spec_latency_samples(sample_rate: u32, channels: u16) -> int {
    (sample_rate as int) * 150 / 1000 * (channels as int)
}

/// Computes the latency cushion of the passthrough path.
pub fn latency_samples(sample_rate: u32, channels: u16) -> (n: u64)
    ensures
        n == spec_latency_samples(sample_rate, channels),
{
    let frames = (sample_rate as u64) * 150 / 1000;
    proof {
        assert((sample_rate as u64) * 150 / 1000 <= sample_rate as u64) by (nonlinear_arith);
        assert(frames * (channels as u64) <= u64::MAX) by (nonlinear_arith)
            requires
                frames <= 0xFFFF_FFFFu64,
                channels <= 0xFFFFu16,
        ;
    }
    frames * (channels as u64)
}

/// Fills `q` with `n` equilibrium samples, behind whatever it already
/// holds. The passthrough path pre-fills its shared queue this way before
/// either capture stream starts, cushioning the clock mismatch between
/// the two devices.
pub fn prefill_equilibrium(q: &mut SampleQueue, n: usize)
    requires
        old(q)@.len() + n <= old(q).spec_capacity(),
    ensures
        final(q)@ == old(q)@ + Seq::new(n as nat, |i: int| equilibrium()),
        final(q).spec_capacity() == old(q).spec_capacity(),
{
    let mut i: usize = 0;
    while i < n
        invariant
            i <= n,
            q.spec_capacity() == old(q).spec_capacity(),
            old(q)@.len() + n <= old(q).spec_capacity(),
            q@ == old(q)@ + Seq::new(i as nat, |j: int| equilibrium()),
        decreases n - i,
    {
        let pushed = q.try_push(equilibrium_sample());
        proof {
            assert(q@ =~= old(q)@ + Seq::new((i + 1) as nat, |j: int| equilibrium()));
        }
        i = i + 1;
    }
    proof {
        assert(q@ =~= old(q)@ + Seq::new(n as nat, |i: int| equilibrium()));
    }
}

/// The merge step of the passthrough path, driven by the input-side
/// callback: for every normalized input sample, one sample is popped from
/// the queue fed by the output-side callback (or replaced by equilibrium
/// on underrun) and the pair is emitted input-first. The returned buffer
/// is the chunk the callback sends on the delivery channel.
pub fn passthrough_merge(input: &Vec<CanonSample>, output_q: &mut SampleQueue) -> (out: Vec<
    CanonSample,
>)
    requires
        input@.len() * 2 <= usize::MAX,
    ensures
        out@ == interleaved(input@, padded_take(old(output_q)@, input@.len())),
        final(output_q)@ == old(output_q)@.skip(
            vstd::math::min(input@.len() as int, old(output_q)@.len() as int),
        ),
        final(output_q).spec_capacity() == old(output_q).spec_capacity(),
{
    let popped = drain_padded(output_q, input.len());
    interleave(input, &popped)
}

} // verus!
