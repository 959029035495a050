//! The recording session: the state machine that owns the recording
//! lifecycle and the configuration derived when a capture path is chosen.
//!
//! A session is idle or recording. Starting an idle session marks it
//! recording and clears the derived configuration; the chosen capture path
//! then fills the configuration in through one of the `configure_*` steps.
//! Starting a recording session is rejected and leaves it untouched.
//! Stopping is idempotent: it clears the recording signal — which every
//! capture thread polls — and nothing else.

use vstd::prelude::*;

verus! {

use vstd::string::StringExecFns;

use crate::errors::AudioRecorderError;
use crate::rates::{spec_reconcile, reconcile_rates, RateDecision};

/// The configuration derived for the running session: the rate of the
/// delivered stream, how many interleaved channels it carries, and the
/// byte size of the source's native sample encoding.
#[derive(Clone, Copy, Debug, PartialEq, Eq, Structural)]
pub struct Config {
    pub sample_rate: u32,
    pub channels: u16,
    pub sample_size: u32,
}

/// A recorder session. The recording signal steers every capture thread;
/// the derived configuration is populated only after a capture path has
/// been chosen.
pub struct Recorder {
    recording_signal: bool,
    target_sample_rate: Option<u32>,
    channels: Option<u16>,
    sample_size: Option<u32>,
}

impl Recorder {
    /// Whether a recording is active.
    pub closed spec fn spec_is_recording(&self) -> bool {
        self.recording_signal
    }

    /// The derived target sample rate, once a path has set it.
    pub closed spec fn spec_target_sample_rate(&self) -> Option<u32> {
        self.target_sample_rate
    }

    /// The derived channel count, once a path has set it.
    pub closed spec fn spec_channels(&self) -> Option<u16> {
        self.channels
    }

    /// The derived sample size, once a path has set it.
    pub closed spec fn spec_sample_size(&self) -> Option<u32> {
        self.sample_size
    }

    /// Whether no part of the derived configuration has been set.
    pub open spec fn config_cleared(&self) -> bool {
        &&& self.spec_target_sample_rate() is None
        &&& self.spec_channels() is None
        &&& self.spec_sample_size() is None
    }

    /// Creates an idle recorder with no derived configuration.
    pub fn new() -> (r: Self)
        ensures
            !r.spec_is_recording(),
            r.config_cleared(),
    {
        Recorder {
            recording_signal: false,
            target_sample_rate: None,
            channels: None,
            sample_size: None,
        }
    }

    /// Whether the recorder is currently recording.
    pub fn get_is_recording(&self) -> (b: bool)
        ensures
            b == self.spec_is_recording(),
    {
        self.recording_signal
    }

    /// Stops the session. Idempotent: on an idle session this changes
    /// nothing; on a recording session it clears the recording signal,
    /// which every capture thread polls, and returns at once. The derived
    /// configuration is kept either way.
    pub fn stop(&mut self)
        ensures
            !final(self).spec_is_recording(),
            final(self).spec_target_sample_rate() == old(self).spec_target_sample_rate(),
            final(self).spec_channels() == old(self).spec_channels(),
            final(self).spec_sample_size() == old(self).spec_sample_size(),
            !old(self).spec_is_recording() ==> *final(self) == *old(self),
    {
        if !self.recording_signal {
            return ;
        }
        self.recording_signal = false;
    }

    /// The lifecycle step of starting a recording. A second start while a
    /// recording is active is rejected with `RecordingInProgress` and the
    /// running session is unaffected; otherwise the session is marked
    /// recording and the derived configuration is cleared, to be filled in
    /// by the capture path the caller then sets up.
    pub fn start(&mut self) -> (r: Result<(), AudioRecorderError>)
        ensures
            old(self).spec_is_recording() ==> (r matches Err(e) && e is RecordingInProgress
                && *final(self) == *old(self)),
            !old(self).spec_is_recording() ==> r is Ok && final(self).spec_is_recording()
                && final(self).config_cleared(),
    {
        if self.recording_signal {
            return Err(AudioRecorderError::RecordingInProgress);
        }
        self.recording_signal = true;
        self.target_sample_rate = None;
        self.channels = None;
        self.sample_size = None;
        Ok(())
    }

    /// The configuration step of the dual-device path: reconciles the two
    /// native rates, fixes the derived configuration — the reconciled
    /// target rate, two channels (one per downmixed side, whatever the
    /// devices' native channel counts), and the input side's sample size —
    /// and returns the decision that selects the capture path.
    pub fn configure_multiple(&mut self, input_rate: u32, output_rate: u32, sample_size: u32) -> (d:
        RateDecision)
        ensures
            d == spec_reconcile(input_rate, output_rate),
            final(self).spec_is_recording() == old(self).spec_is_recording(),
            final(self).spec_target_sample_rate() == Some(d.target_rate),
            final(self).spec_channels() == Some(2u16),
            final(self).spec_sample_size() == Some(sample_size),
    {
        let d = reconcile_rates(input_rate, output_rate);
        self.target_sample_rate = Some(d.target_rate);
        self.channels = Some(2);
        self.sample_size = Some(sample_size);
        d
    }

    /// The configuration step of the single-device path: the stream is
    /// delivered exactly as the device produces it, so the device's own
    /// rate, channel count and sample size become the derived
    /// configuration.
    pub fn configure_single(&mut self, sample_rate: u32, channels: u16, sample_size: u32)
        ensures
            final(self).spec_is_recording() == old(self).spec_is_recording(),
            final(self).spec_target_sample_rate() == Some(sample_rate),
            final(self).spec_channels() == Some(channels),
            final(self).spec_sample_size() == Some(sample_size),
    {
        self.target_sample_rate = Some(sample_rate);
        self.channels = Some(channels);
        self.sample_size = Some(sample_size);
    }

    /// The derived configuration, or which part of it is still unset: the
    /// target sample rate is checked first, then the channel count, then
    /// the sample size.
    pub fn get_config(&self) -> (r: Result<Config, String>)
        ensures
            (r is Ok) == (self.spec_target_sample_rate() is Some && self.spec_channels() is Some
                && self.spec_sample_size() is Some),
            r matches Ok(c) ==> Some(c.sample_rate) == self.spec_target_sample_rate() && Some(
                c.channels,
            ) == self.spec_channels() && Some(c.sample_size) == self.spec_sample_size(),
            r matches Err(m) ==> m@ == (if self.spec_target_sample_rate() is None {
                "Sample rate not set"@
            } else if self.spec_channels() is None {
                "Channels not set"@
            } else {
                "Sample size not set"@
            }),
    {
        let sample_rate = match self.target_sample_rate {
            Some(rate) => rate,
            None => {
                return Err(String::from_str("Sample rate not set"));
            },
        };
        let channels = match self.channels {
            Some(channels) => channels,
            None => {
                return Err(String::from_str("Channels not set"));
            },
        };
        let sample_size = match self.sample_size {
            Some(size) => size,
            None => {
                return Err(String::from_str("Sample size not set"));
            },
        };
        Ok(Config { sample_rate, channels, sample_size })
    }
}

impl Default for Recorder {
    /// An idle recorder with no derived configuration.
    fn default() -> (r: Self)
        ensures
            !r.spec_is_recording(),
            r.config_cleared(),
    {
        Recorder::new()
    }
}

} // verus!
