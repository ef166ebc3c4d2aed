use mini_sdl::{AudioInput, StereoFrame};

fn frame(left: i16, right: i16) -> StereoFrame {
    StereoFrame { left, right }
}

#[test]
fn new_feeder_has_no_audio() {
    let feeder = AudioInput::new();
    assert_eq!(feeder.buffer_len(), 0);
    assert_eq!(feeder.mixrate(), None);
    // Audio unavailable: the sizing query reports absence, not an error.
    assert_eq!(feeder.samples_per_frame(16_666_667), None);
}

#[test]
fn push_keeps_interleaved_order() {
    let mut feeder = AudioInput::new();
    feeder.push_sample(frame(1, 2));
    feeder.push_samples(&[frame(3, 4), frame(5, 6)]);
    assert_eq!(feeder.buffer_len(), 6);
    let out = feeder.drain_for_device(6);
    assert_eq!(out, vec![1, 2, 3, 4, 5, 6]);
    assert_eq!(feeder.buffer_len(), 0);
}

#[test]
fn drain_pads_underrun_with_silence() {
    let mut feeder = AudioInput::new();
    feeder.push_samples(&[frame(7, -8)]);
    let out = feeder.drain_for_device(5);
    // Two real samples, never more than min(requested, queued); the rest is
    // exactly zero-valued.
    assert_eq!(out, vec![7, -8, 0, 0, 0]);
    assert_eq!(feeder.buffer_len(), 0);
    // Draining an empty queue is all silence.
    assert_eq!(feeder.drain_for_device(3), vec![0, 0, 0]);
}

#[test]
fn drain_takes_from_the_head_only() {
    let mut feeder = AudioInput::new();
    feeder.push_samples(&[frame(1, 2), frame(3, 4)]);
    assert_eq!(feeder.drain_for_device(2), vec![1, 2]);
    assert_eq!(feeder.buffer_len(), 2);
    assert_eq!(feeder.drain_for_device(2), vec![3, 4]);
}

#[test]
fn push_then_drain_restores_queue_length() {
    let mut feeder = AudioInput::new();
    feeder.push_sample(frame(9, 9));
    let before = feeder.buffer_len();
    let burst = [frame(1, 1), frame(2, 2), frame(3, 3)];
    feeder.push_samples(&burst);
    assert_eq!(feeder.buffer_len(), before + 2 * burst.len());
    feeder.drain_for_device(2 * burst.len());
    assert_eq!(feeder.buffer_len(), before);
}

#[test]
fn sizing_at_sixty_fps_is_the_ideal_count() {
    let mut feeder = AudioInput::new();
    feeder.set_sample_rate(44100);
    assert_eq!(feeder.mixrate(), Some(44100));
    // round(44100 / 60) = 735 stereo frames; an empty queue is below the
    // 20 ms target of 882, so the full ideal count is requested.
    assert_eq!(feeder.samples_per_frame(16_666_667), Some(735));
}

#[test]
fn sizing_far_ahead_requests_nothing() {
    let mut feeder = AudioInput::new();
    feeder.set_sample_rate(44100);
    for _ in 0..2000 {
        feeder.push_sample(frame(0, 0));
    }
    // queued(2000) - target(882) = 1118 >= ideal(735): skip this frame.
    assert_eq!(feeder.samples_per_frame(16_666_667), None);
}

#[test]
fn sizing_slightly_ahead_subtracts_the_overflow() {
    let mut feeder = AudioInput::new();
    feeder.set_sample_rate(44100);
    for _ in 0..1000 {
        feeder.push_sample(frame(0, 0));
    }
    // queued(1000) - target(882) = 118; 735 - 118 = 617.
    assert_eq!(feeder.samples_per_frame(16_666_667), Some(617));
}

#[test]
fn sizing_query_is_idempotent() {
    let mut feeder = AudioInput::new();
    feeder.set_sample_rate(48000);
    feeder.push_samples(&[frame(1, 2), frame(3, 4)]);
    let first = feeder.samples_per_frame(20_000_000);
    let second = feeder.samples_per_frame(20_000_000);
    assert_eq!(first, second);
    assert_eq!(first, Some(960));
}
