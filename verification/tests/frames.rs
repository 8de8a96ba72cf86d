use voice_assistant::resampler::{FrameRead, ListenerEvent, Resampler, SILENCE_SAMPLES, WAIT_MS};

fn block(read: FrameRead) -> Vec<Vec<i16>> {
    match read {
        FrameRead::Frames(block) => block,
        other => panic!("expected a block, got {:?}", other),
    }
}

#[test]
fn new_queue_is_empty_and_open() {
    let resampler = Resampler::new(2);
    assert_eq!(resampler.buffered(), 0);
    assert!(!resampler.is_closed());
    assert!(!resampler.ready(1));
    assert!(resampler.ready(0));
}

#[test]
fn silence_is_one_wait_of_samples() {
    assert_eq!(SILENCE_SAMPLES, 4800);
    assert_eq!(WAIT_MS, 100);
    assert_eq!(SILENCE_SAMPLES as u64, WAIT_MS * 48);
}

#[test]
fn no_block_before_enough_frames() {
    let mut resampler = Resampler::new(2);
    assert!(resampler.push(ListenerEvent::AudioPacket(vec![1, 2, 3, 4, 5])));
    assert!(matches!(resampler.read_frames(3), FrameRead::Blocked));
    assert_eq!(resampler.buffered(), 5);
    assert!(resampler.push(ListenerEvent::AudioPacket(vec![6])));
    assert!(resampler.ready(3));
    let out = block(resampler.read_frames(3));
    assert_eq!(out, vec![vec![1i16, 3, 5], vec![2i16, 4, 6]]);
    assert_eq!(resampler.buffered(), 0);
    assert!(matches!(resampler.read_frames(3), FrameRead::Blocked));
}

#[test]
fn one_block_for_each_accumulation() {
    let mut resampler = Resampler::new(2);
    let samples: Vec<i16> = (0..20).collect();
    assert!(resampler.push(ListenerEvent::AudioPacket(samples)));
    let first = block(resampler.read_frames(4));
    assert_eq!(first, vec![vec![0i16, 2, 4, 6], vec![1i16, 3, 5, 7]]);
    assert_eq!(resampler.buffered(), 12);
    let second = block(resampler.read_frames(4));
    assert_eq!(second, vec![vec![8i16, 10, 12, 14], vec![9i16, 11, 13, 15]]);
    assert_eq!(resampler.buffered(), 4);
    assert!(matches!(resampler.read_frames(4), FrameRead::Blocked));
    assert_eq!(resampler.buffered(), 4);
}

#[test]
fn packets_keep_their_order() {
    let mut resampler = Resampler::new(2);
    resampler.push(ListenerEvent::AudioPacket(vec![1, 2, 3]));
    resampler.push(ListenerEvent::AudioPacket(vec![]));
    resampler.push(ListenerEvent::AudioPacket(vec![4, 5, 6, 7]));
    let out = block(resampler.read_frames(3));
    assert_eq!(out, vec![vec![1i16, 3, 5], vec![2i16, 4, 6]]);
    assert_eq!(resampler.buffered(), 1);
}

#[test]
fn two_short_blocks_equal_one_long_block() {
    let samples: Vec<i16> = (0..24).map(|i| i * 3 - 7).collect();
    let mut split = Resampler::new(2);
    split.push(ListenerEvent::AudioPacket(samples.clone()));
    let mut whole = Resampler::new(2);
    whole.push(ListenerEvent::AudioPacket(samples));
    let a = block(split.read_frames(5));
    let b = block(split.read_frames(7));
    let c = block(whole.read_frames(12));
    for channel in 0..2 {
        let mut joined = a[channel].clone();
        joined.extend_from_slice(&b[channel]);
        assert_eq!(joined, c[channel]);
    }
}

#[test]
fn empty_block_is_always_ready() {
    let mut resampler = Resampler::new(2);
    let out = block(resampler.read_frames(0));
    assert_eq!(out, vec![Vec::<i16>::new(), Vec::<i16>::new()]);
}

#[test]
fn extra_channels_stay_empty() {
    let mut resampler = Resampler::new(4);
    resampler.push(ListenerEvent::AudioPacket(vec![1, 2, 3, 4]));
    let out = block(resampler.read_frames(2));
    assert_eq!(out, vec![vec![1i16, 3], vec![2i16, 4], vec![], vec![]]);
}

#[test]
fn huge_demand_blocks() {
    let mut resampler = Resampler::new(2);
    resampler.push(ListenerEvent::AudioPacket(vec![1, 2]));
    assert!(!resampler.ready(usize::MAX));
    assert!(matches!(resampler.read_frames(usize::MAX), FrameRead::Blocked));
    assert_eq!(resampler.buffered(), 2);
}

#[test]
fn timeout_injects_exactly_the_silence() {
    let mut resampler = Resampler::new(2);
    resampler.push(ListenerEvent::AudioPacket(vec![9, 8]));
    resampler.inject_silence();
    assert_eq!(resampler.buffered(), 2 + 4800);
    let out = block(resampler.read_frames(2401));
    assert_eq!(out[0][0], 9);
    assert_eq!(out[1][0], 8);
    assert!(out[0][1..].iter().all(|&s| s == 0));
    assert!(out[1][1..].iter().all(|&s| s == 0));
    assert_eq!(out[0].len(), 2401);
    assert_eq!(resampler.buffered(), 0);
}

#[test]
fn starved_queue_recovers_with_silence() {
    let mut resampler = Resampler::new(2);
    assert!(matches!(resampler.read_frames(512), FrameRead::Blocked));
    resampler.inject_silence();
    let out = block(resampler.read_frames(512));
    assert_eq!(out[0], vec![0i16; 512]);
    assert_eq!(out[1], vec![0i16; 512]);
    assert_eq!(resampler.buffered(), 4800 - 1024);
}

#[test]
fn disconnect_ends_the_stream() {
    let mut resampler = Resampler::new(2);
    assert!(resampler.push(ListenerEvent::AudioPacket(vec![1, 2, 3, 4])));
    assert!(!resampler.push(ListenerEvent::Disconnect));
    assert!(resampler.is_closed());
    assert!(!resampler.ready(1));
    assert!(matches!(resampler.read_frames(1), FrameRead::Closed));
    assert_eq!(resampler.buffered(), 4);
}

#[test]
fn closed_stream_takes_nothing_more() {
    let mut resampler = Resampler::new(2);
    assert!(!resampler.push(ListenerEvent::Disconnect));
    assert!(!resampler.push(ListenerEvent::AudioPacket(vec![1, 2])));
    resampler.inject_silence();
    assert_eq!(resampler.buffered(), 0);
    assert!(matches!(resampler.read_frames(0), FrameRead::Closed));
}
