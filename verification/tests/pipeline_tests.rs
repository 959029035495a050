//! End-to-end scenarios: synthetic capture sources drive the verified
//! pipeline stages the way the capture threads do, with the real
//! resampling engine in the loop.

use audio_recorder_rs::queue::SampleQueue;
use audio_recorder_rs::rates::ResampleTargetStream;
use audio_recorder_rs::resample::{push_all, take_exact};
use audio_recorder_rs::sample::CanonSample;
use audio_recorder_rs::session::Recorder;
use audio_recorder_rs::sync::{latency_samples, passthrough_merge, prefill_equilibrium, sync_step};
use dasp_sample::Sample;
use rubato::{FftFixedIn, Resampler};

fn canon(x: f32) -> CanonSample {
    CanonSample { bits: x.to_bits() }
}

/// Two synthetic mono sources at 48 kHz (input) and 44.1 kHz (output).
/// The input stream is resampled down to 44.1 kHz; the synchronizer
/// emits interleaved chunks of `2 * 44100` samples, even indices from
/// the input path, odd indices from the output path.
#[test]
fn dual_stream_resampling_scenario() {
    let mut rec = Recorder::new();
    rec.start().unwrap();
    let d = rec.configure_multiple(48000, 44100, 4);
    assert!(matches!(d.stream, ResampleTargetStream::Input));
    assert_eq!(d.target_rate, 44100);
    assert_eq!(d.origin_rate, 48000);
    let cfg = rec.get_config().unwrap();
    assert_eq!(cfg.sample_rate, 44100);
    assert_eq!(cfg.channels, 2);

    let target_rate = d.target_rate as usize;
    let mut staging = SampleQueue::new(2 * target_rate);
    let mut inq = SampleQueue::new(2 * target_rate);
    let mut outq = SampleQueue::new(2 * target_rate);

    let mut resampler =
        FftFixedIn::<f32>::new(d.origin_rate as usize, target_rate, 1024, 2, 1).unwrap();
    let mut out_buf = resampler.output_buffer_allocate(true);
    let mut next_frames = resampler.input_frames_next();

    let in_val = 0.5f32;
    let out_val = -0.5f32;

    // The capture callbacks and the resampler stage, run round by round.
    while inq.occupied_len() < target_rate || outq.occupied_len() < target_rate {
        for _ in 0..4800 {
            staging.try_push(canon(in_val));
        }
        for _ in 0..4410 {
            outq.try_push(canon(out_val));
        }
        while let Some(block) = take_exact(&mut staging, next_frames) {
            let wave_in: Vec<f32> = block.iter().map(|s| f32::from_bits(s.bits)).collect();
            let (_, out_frames) = resampler
                .process_into_buffer(&[&wave_in], &mut out_buf, None)
                .unwrap();
            next_frames = resampler.input_frames_next();
            let converted: Vec<CanonSample> =
                out_buf[0][..out_frames].iter().map(|x| canon(*x)).collect();
            push_all(&mut inq, &converted);
        }
    }

    let chunk = sync_step(&mut inq, &mut outq, target_rate).expect("both sides are full");
    assert_eq!(chunk.len(), 2 * target_rate);
    for i in 0..target_rate {
        // Odd indices: the output path, untouched.
        assert_eq!(f32::from_bits(chunk[2 * i + 1].bits), out_val);
        // Even indices: the resampled input path, nowhere near the
        // output's value.
        let v = f32::from_bits(chunk[2 * i].bits);
        assert!(v > -0.2 && v < 0.8, "input slot {i} out of range: {v}");
    }
    // Away from the resampler's start-up transient the input path sits at
    // its source value.
    let mid = f32::from_bits(chunk[2 * (target_rate / 2)].bits);
    assert!((mid - in_val).abs() < 0.01, "mid sample drifted: {mid}");
}

/// Two sources at the same rate with the 150 ms latency cushion: the
/// consumer sees exactly the latency's worth of equilibrium samples
/// before real audio from the output side appears.
#[test]
fn equal_rates_latency_prefill_scenario() {
    let mut rec = Recorder::new();
    rec.start().unwrap();
    let d = rec.configure_multiple(44100, 44100, 4);
    assert!(matches!(d.stream, ResampleTargetStream::NoResampling));

    let latency = latency_samples(44100, 2) as usize;
    assert_eq!(latency, (0.15f64 * 44100.0 * 2.0) as usize);

    let mut shared = SampleQueue::new(latency * 2);
    prefill_equilibrium(&mut shared, latency);

    let out_val = 0.25f32;
    let silent = canon(0.0);
    let mut received: Vec<f32> = Vec::new();
    for _round in 0..40 {
        // The output-side callback stages its samples...
        for _ in 0..441 {
            shared.try_push(canon(out_val));
        }
        // ...and the input-side callback merges and delivers.
        let input: Vec<CanonSample> = vec![silent; 441];
        let pairs = passthrough_merge(&input, &mut shared);
        for s in pairs {
            received.push(f32::from_bits(s.bits));
        }
    }

    // The first `0.15 * 44100 * 2` delivered samples are silence.
    for i in 0..2 * latency {
        assert_eq!(received[i], 0.0, "sample {i} not silence");
    }
    // Then the output side's real audio appears on the odd slots.
    assert_eq!(received[2 * latency + 1], out_val);
    // The (silent) input source occupies every even slot throughout.
    for i in (0..received.len()).step_by(2) {
        assert_eq!(received[i], 0.0);
    }
}

/// A single 16-bit source at 16 kHz mono: every delivered sample is the
/// canonical conversion of the corresponding native sample, in order,
/// with no downmix and no resampling.
#[test]
fn single_device_i16_scenario() {
    let mut rec = Recorder::new();
    rec.start().unwrap();
    rec.configure_single(
        16000,
        1,
        audio_recorder_rs::normalize::SampleEncoding::I16.sample_size(),
    );
    let cfg = rec.get_config().unwrap();
    assert_eq!(cfg.sample_rate, 16000);
    assert_eq!(cfg.channels, 1);
    assert_eq!(cfg.sample_size, 2);

    let mut data: Vec<i16> = vec![0, 1, -1, 123, -123, i16::MAX, i16::MIN];
    for k in 0..16000i32 {
        data.push((k % 4093 - 2046) as i16);
    }

    // One channel: the normalizer forwards the buffer unchanged.
    let mono = audio_recorder_rs::normalize::channels_to_mono(data.clone(), 1);
    assert_eq!(mono, data);

    // The conversion to the canonical format, sample by sample, in order.
    let mut q = SampleQueue::new(data.len());
    for s in &mono {
        let c: f32 = s.to_sample();
        assert!(q.try_push(CanonSample { bits: c.to_bits() }));
    }
    for s in &data {
        let got = q.pop().expect("one delivered sample per source sample");
        assert_eq!(f32::from_bits(got.bits), s.to_sample::<f32>());
    }
    assert_eq!(q.pop(), None);

    rec.stop();
    assert!(!rec.get_is_recording());
}
