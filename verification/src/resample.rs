//! Bookkeeping for the resampler stage.
//!
//! The resampler stage runs beside the capture callbacks and repeats one
//! step: while its staging queue holds at least the frame count the
//! resampling engine asks for next, it pops exactly that many samples,
//! hands them to the engine, and pushes the converted block into the
//! downstream queue. The engine itself works in the canonical float
//! domain outside the library; the functions here are the frame-accurate
//! queue bookkeeping around it, verified for every value the engine may
//! ask for or return.

use vstd::prelude::*;

verus! {

use crate::queue::SampleQueue;
use crate::sample::CanonSample;

/// Pops exactly `n` samples from the front of `q` — the block handed to
/// the resampling engine — or nothing at all when fewer than `n` are
/// buffered, in which case the stage sleeps until the next poll.
pub fn take_exact(q: &mut SampleQueue, n: usize) -> (r: Option<Vec<CanonSample>>)
    ensures
        final(q).spec_capacity() == old(q).spec_capacity(),
        (r is Some) == (old(q)@.len() >= n),
        r is None ==> final(q)@ == old(q)@,
        r matches Some(block) ==> block@ == old(q)@.take(n as int) && final(q)@ == old(q)@.skip(
            n as int,
        ),
{
    if q.occupied_len() < n {
        return None;
    }
    let mut block: Vec<CanonSample> = Vec::new();
    let mut i: usize = 0;
    while i < n
        invariant
            i <= n,
            old(q)@.len() >= n,
            q.spec_capacity() == old(q).spec_capacity(),
            q@ == old(q)@.skip(i as int),
            block@ == old(q)@.take(i as int),
        decreases n - i,
    {
        match q.pop() {
            Some(s) => {
                block.push(s);
                proof {
                    assert(q@ =~= old(q)@.skip((i + 1) as int));
                    assert(block@ =~= old(q)@.take((i + 1) as int));
                }
            },
            None => {
                proof {
                    assert(false);
                }
            },
        }
        i = i + 1;
    }
    Some(block)
}

/// Pushes a converted block from the resampling engine into the
/// downstream queue, in order. Samples that no longer fit are dropped —
/// the producing side never blocks — and the number actually stored is
/// returned.
pub fn push_all(q: &mut SampleQueue, data: &Vec<CanonSample>) -> (stored: usize)
    ensures
        final(q).spec_capacity() == old(q).spec_capacity(),
        stored == vstd::math::min(
            data@.len() as int,
            old(q).spec_capacity() - old(q)@.len(),
        ),
        final(q)@ == old(q)@ + data@.take(stored as int),
{
    let space = q.capacity() - q.occupied_len();
    let count = if data.len() < space {
        data.len()
    } else {
        space
    };
    let mut i: usize = 0;
    while i < count
        invariant
            i <= count,
            count == vstd::math::min(data@.len() as int, old(q).spec_capacity() - old(q)@.len()),
            q.spec_capacity() == old(q).spec_capacity(),
            q@ == old(q)@ + data@.take(i as int),
        decreases count - i,
    {
        let pushed = q.try_push(data[i]);
        proof {
            assert(pushed);
            assert(q@ =~= old(q)@ + data@.take((i + 1) as int));
        }
        i = i + 1;
    }
    count
}

} // verus!
