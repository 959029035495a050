use audio_recorder_rs::queue::SampleQueue;
use audio_recorder_rs::sample::{equilibrium_sample, CanonSample};
use audio_recorder_rs::sync::{
    drain_padded, interleave, latency_samples, passthrough_merge, sync_step,
};

fn canon(x: f32) -> CanonSample {
    CanonSample { bits: x.to_bits() }
}

#[test]
fn drain_padded_pads_underrun_with_equilibrium() {
    let mut q = SampleQueue::new(8);
    assert!(q.try_push(canon(0.1)));
    assert!(q.try_push(canon(0.2)));
    assert!(q.try_push(canon(0.3)));
    let out = drain_padded(&mut q, 5);
    assert_eq!(out.len(), 5);
    assert_eq!(out[0], canon(0.1));
    assert_eq!(out[1], canon(0.2));
    assert_eq!(out[2], canon(0.3));
    assert_eq!(out[3], equilibrium_sample());
    assert_eq!(out[4], equilibrium_sample());
    assert_eq!(q.occupied_len(), 0);
}

#[test]
fn drain_padded_takes_only_the_asked_prefix() {
    let mut q = SampleQueue::new(8);
    for i in 0..6u32 {
        assert!(q.try_push(CanonSample { bits: i }));
    }
    let out = drain_padded(&mut q, 4);
    assert_eq!(out.len(), 4);
    for i in 0..4u32 {
        assert_eq!(out[i as usize], CanonSample { bits: i });
    }
    assert_eq!(q.occupied_len(), 2);
    assert_eq!(q.pop(), Some(CanonSample { bits: 4 }));
}

#[test]
fn interleave_alternates_sides() {
    let a = vec![canon(1.0), canon(2.0)];
    let b = vec![canon(-1.0), canon(-2.0)];
    let out = interleave(&a, &b);
    assert_eq!(out, vec![canon(1.0), canon(-1.0), canon(2.0), canon(-2.0)]);
}

#[test]
fn sync_step_waits_until_a_side_has_enough() {
    let mut inq = SampleQueue::new(8);
    let mut outq = SampleQueue::new(8);
    assert!(inq.try_push(canon(0.5)));
    assert!(sync_step(&mut inq, &mut outq, 2).is_none());
    // Nothing was consumed.
    assert_eq!(inq.occupied_len(), 1);
    assert!(inq.try_push(canon(0.6)));
    let chunk = sync_step(&mut inq, &mut outq, 2).expect("a side reached the threshold");
    assert_eq!(chunk.len(), 4);
    assert_eq!(chunk[0], canon(0.5));
    assert_eq!(chunk[1], equilibrium_sample());
    assert_eq!(chunk[2], canon(0.6));
    assert_eq!(chunk[3], equilibrium_sample());
    assert_eq!(inq.occupied_len(), 0);
}

#[test]
fn sync_step_merges_both_sides_in_order() {
    let mut inq = SampleQueue::new(8);
    let mut outq = SampleQueue::new(8);
    for i in 0..3u32 {
        assert!(inq.try_push(CanonSample { bits: 100 + i }));
        assert!(outq.try_push(CanonSample { bits: 200 + i }));
    }
    let chunk = sync_step(&mut inq, &mut outq, 3).unwrap();
    assert_eq!(chunk.len(), 6);
    for i in 0..3u32 {
        assert_eq!(chunk[2 * i as usize], CanonSample { bits: 100 + i });
        assert_eq!(chunk[2 * i as usize + 1], CanonSample { bits: 200 + i });
    }
}

#[test]
fn latency_formula() {
    // 150 ms at 44.1 kHz, two channels.
    assert_eq!(latency_samples(44100, 2), 13230);
    assert_eq!(latency_samples(44100, 2), (0.15f64 * 44100.0 * 2.0) as u64);
    assert_eq!(latency_samples(16000, 1), 2400);
    assert_eq!(latency_samples(0, 2), 0);
}

#[test]
fn passthrough_merge_pairs_input_with_popped_output() {
    let mut outq = SampleQueue::new(8);
    assert!(outq.try_push(canon(-0.1)));
    let input = vec![canon(0.1), canon(0.2)];
    let out = passthrough_merge(&input, &mut outq);
    assert_eq!(out.len(), 4);
    assert_eq!(out[0], canon(0.1));
    assert_eq!(out[1], canon(-0.1));
    assert_eq!(out[2], canon(0.2));
    // The output side ran dry: equilibrium takes the slot.
    assert_eq!(out[3], equilibrium_sample());
    assert_eq!(outq.occupied_len(), 0);
}
