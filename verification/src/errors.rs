//! The error taxonomy of the recorder.

use vstd::prelude::*;

verus! {

use vstd::string::StringExecFns;

/// What can go wrong while starting or running a recording session.
#[derive(Debug)]
pub enum AudioRecorderError {
    /// An unsupported or unreconcilable sample format pair: fatal to the
    /// attempted capture path, the session reverts to idle.
    SignalError(String),
    /// Device or configuration resolution failed: fatal to `start`, the
    /// caller must retry or pick another device.
    DeviceError(&'static str),
    /// A second `start` while a recording is active: a caller error, the
    /// running session is unaffected.
    RecordingInProgress,
}

impl AudioRecorderError {
    /// A readable description of the error.
    pub fn message(&self) -> (m: String)
        ensures
            self matches AudioRecorderError::SignalError(s) ==> m@ == "Signal Error: "@ + s@,
            self matches AudioRecorderError::DeviceError(s) ==> m@ == "Device Error: "@ + s@,
            self is RecordingInProgress ==> m@ == "Recording is already in progress"@,
    {
        match self {
            AudioRecorderError::SignalError(s) => String::from_str("Signal Error: ").concat(
                s.as_str(),
            ),
            AudioRecorderError::DeviceError(s) => String::from_str("Device Error: ").concat(s),
            AudioRecorderError::RecordingInProgress => String::from_str(
                "Recording is already in progress",
            ),
        }
    }
}

} // verus!
