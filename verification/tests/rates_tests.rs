use audio_recorder_rs::rates::{reconcile_rates, ResampleTargetStream};

#[test]
fn input_faster_resamples_input() {
    let d = reconcile_rates(48000, 44100);
    assert!(matches!(d.stream, ResampleTargetStream::Input));
    assert_eq!(d.target_rate, 44100);
    assert_eq!(d.origin_rate, 48000);
}

#[test]
fn output_faster_resamples_output() {
    let d = reconcile_rates(44100, 48000);
    assert!(matches!(d.stream, ResampleTargetStream::Output));
    assert_eq!(d.target_rate, 44100);
    assert_eq!(d.origin_rate, 48000);
}

#[test]
fn equal_rates_need_no_resampling() {
    let d = reconcile_rates(44100, 44100);
    assert!(matches!(d.stream, ResampleTargetStream::NoResampling));
    assert_eq!(d.target_rate, 44100);
    assert_eq!(d.origin_rate, 44100);
}

#[test]
fn extreme_rates() {
    let d = reconcile_rates(1, u32::MAX);
    assert!(matches!(d.stream, ResampleTargetStream::Output));
    assert_eq!(d.target_rate, 1);
    assert_eq!(d.origin_rate, u32::MAX);
}
