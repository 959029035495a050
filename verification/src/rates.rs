//! Rate reconciliation: decide which of the two capture streams must be
//! resampled so that both sides share one sample rate.

use vstd::prelude::*;

verus! {

/// Which of the two capture streams the resampler stage must convert.
#[derive(Clone, Copy, Debug, PartialEq, Eq, Structural)]
pub enum ResampleTargetStream {
    /// Resample the input stream to achieve the output rate.
    Input,
    /// Resample the output stream to achieve the input rate.
    Output,
    /// No resampling: both streams already share one rate.
    NoResampling,
}

/// The outcome of rate reconciliation: the stream to resample, the rate
/// both sides will share, and the native rate of the resampled stream.
#[derive(Clone, Copy, Debug, PartialEq, Eq, Structural)]
pub struct RateDecision {
    pub stream: ResampleTargetStream,
    pub target_rate: u32,
    pub origin_rate: u32,
}

/// What rate reconciliation decides for a pair of native rates: the
/// pipeline always resamples toward the lower of the two rates, so the
/// stream with the higher rate is converted down; equal rates need no
/// resampling at all.
pub open spec fn spec_reconcile(input_rate: u32, output_rate: u32) -> RateDecision {
    if input_rate < output_rate {
        RateDecision {
            stream: ResampleTargetStream::Output,
            target_rate: input_rate,
            origin_rate: output_rate,
        }
    } else if input_rate == output_rate {
        RateDecision {
            stream: ResampleTargetStream::NoResampling,
            target_rate: input_rate,
            origin_rate: output_rate,
        }
    } else {
        RateDecision {
            stream: ResampleTargetStream::Input,
            target_rate: output_rate,
            origin_rate: input_rate,
        }
    }
}

/// Decides, from the two devices' native sample rates, whether resampling
/// is needed and which stream must be resampled.
pub fn reconcile_rates(input_rate: u32, output_rate: u32) -> (d: RateDecision)
    ensures
        d == spec_reconcile(input_rate, output_rate),
{
    if input_rate < output_rate {
        // Resample the output stream down to the input rate.
        RateDecision {
            stream: ResampleTargetStream::Output,
            target_rate: input_rate,
            origin_rate: output_rate,
        }
    } else if input_rate == output_rate {
        RateDecision {
            stream: ResampleTargetStream::NoResampling,
            target_rate: input_rate,
            origin_rate: output_rate,
        }
    } else {
        // Resample the input stream down to the output rate.
        RateDecision {
            stream: ResampleTargetStream::Input,
            target_rate: output_rate,
            origin_rate: input_rate,
        }
    }
}

/// Law: for any two rates, exactly one of the three resampling choices is
/// selected; the target rate is the smaller and the origin rate the larger
/// of the two; for equal rates the common rate is kept and no resampling
/// path is selected.
pub proof fn lemma_reconcile_exclusive(input_rate: u32, output_rate: u32)
    ensures
        ({
            let d = spec_reconcile(input_rate, output_rate);
            &&& (d.stream is Output <==> input_rate < output_rate)
            &&& (d.stream is NoResampling <==> input_rate == output_rate)
            &&& (d.stream is Input <==> input_rate > output_rate)
            &&& d.target_rate == vstd::math::min(input_rate as int, output_rate as int)
            &&& d.origin_rate == vstd::math::max(input_rate as int, output_rate as int)
            &&& (input_rate == output_rate ==> d.target_rate == input_rate)
        }),
{
}

} // verus!
