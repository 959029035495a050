use audio_recorder_rs::errors::AudioRecorderError;
use audio_recorder_rs::rates::ResampleTargetStream;
use audio_recorder_rs::session::Recorder;

#[test]
fn new_recorder_is_idle() {
    let r = Recorder::new();
    assert!(!r.get_is_recording());
}

#[test]
fn default_recorder_is_idle() {
    let r = Recorder::default();
    assert!(!r.get_is_recording());
    assert!(r.get_config().is_err());
}

#[test]
fn start_marks_recording() {
    let mut r = Recorder::new();
    assert!(r.start().is_ok());
    assert!(r.get_is_recording());
}

#[test]
fn second_start_is_rejected_and_session_unaffected() {
    let mut r = Recorder::new();
    assert!(r.start().is_ok());
    let d = r.configure_multiple(48000, 44100, 4);
    assert!(matches!(d.stream, ResampleTargetStream::Input));
    let second = r.start();
    assert!(matches!(second, Err(AudioRecorderError::RecordingInProgress)));
    // The first session keeps recording with its configuration intact.
    assert!(r.get_is_recording());
    let cfg = r.get_config().expect("config of the first session must survive");
    assert_eq!(cfg.sample_rate, 44100);
    assert_eq!(cfg.channels, 2);
    assert_eq!(cfg.sample_size, 4);
}

#[test]
fn stop_on_idle_session_is_a_no_op() {
    let mut r = Recorder::new();
    r.stop();
    assert!(!r.get_is_recording());
    r.stop();
    assert!(!r.get_is_recording());
}

#[test]
fn stop_clears_recording() {
    let mut r = Recorder::new();
    assert!(r.start().is_ok());
    r.stop();
    assert!(!r.get_is_recording());
    // A new start succeeds after the stop.
    assert!(r.start().is_ok());
}

#[test]
fn config_unset_before_a_path_is_chosen() {
    let mut r = Recorder::new();
    assert!(r.start().is_ok());
    let err = r.get_config().unwrap_err();
    assert_eq!(err, "Sample rate not set");
}

#[test]
fn configure_multiple_fixes_two_channels_and_min_rate() {
    let mut r = Recorder::new();
    assert!(r.start().is_ok());
    let d = r.configure_multiple(44100, 48000, 8);
    assert!(matches!(d.stream, ResampleTargetStream::Output));
    let cfg = r.get_config().unwrap();
    assert_eq!(cfg.sample_rate, 44100);
    assert_eq!(cfg.channels, 2);
    assert_eq!(cfg.sample_size, 8);
}

#[test]
fn configure_single_takes_the_device_config() {
    let mut r = Recorder::new();
    assert!(r.start().is_ok());
    r.configure_single(16000, 1, 2);
    let cfg = r.get_config().unwrap();
    assert_eq!(cfg.sample_rate, 16000);
    assert_eq!(cfg.channels, 1);
    assert_eq!(cfg.sample_size, 2);
}

#[test]
fn error_messages() {
    let e = AudioRecorderError::RecordingInProgress;
    assert_eq!(e.message(), "Recording is already in progress");
    let e = AudioRecorderError::DeviceError("Failed to get input config");
    assert_eq!(e.message(), "Device Error: Failed to get input config");
    let e = AudioRecorderError::SignalError(String::from("Unsupported sample format 'I24'"));
    assert_eq!(e.message(), "Signal Error: Unsupported sample format 'I24'");
}
