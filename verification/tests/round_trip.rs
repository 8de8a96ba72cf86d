use rubato::{
    Resampler as RateConverter, SincFixedOut, SincInterpolationParameters,
    SincInterpolationType, WindowFunction,
};
use voice_assistant::assistant::DiscordAssistant;
use voice_assistant::listener::{Conclusion, ConversationState, Session};
use voice_assistant::resampler::{FrameRead, ListenerEvent, Resampler};

const FRAME_LENGTH: usize = 512;

fn converter() -> SincFixedOut<f64> {
    let parameters = SincInterpolationParameters {
        sinc_len: 256,
        f_cutoff: 0.95,
        interpolation: SincInterpolationType::Linear,
        oversampling_factor: 256,
        window: WindowFunction::BlackmanHarris2,
    };
    SincFixedOut::<f64>::new(16_000.0 / 48_000.0, 2.0, parameters, FRAME_LENGTH, 2).unwrap()
}

fn utterance() -> Vec<i16> {
    (0..48_000i64)
        .flat_map(|i| {
            let left = ((i * 37) % 4001 - 2000) as i16;
            let right = ((i * 91) % 3001 - 1500) as i16;
            [left, right]
        })
        .collect()
}

fn mono_frames(packets: Vec<Vec<i16>>) -> Vec<Vec<i16>> {
    let mut queue = Resampler::new(2);
    let mut converter = converter();
    let mut packets = packets.into_iter();
    let mut frames = Vec::new();
    loop {
        let needed = converter.input_frames_next();
        let block = loop {
            match queue.read_frames(needed) {
                FrameRead::Frames(block) => break Some(block),
                FrameRead::Closed => break None,
                FrameRead::Blocked => match packets.next() {
                    Some(packet) => {
                        queue.push(ListenerEvent::AudioPacket(packet));
                    }
                    None => {
                        queue.push(ListenerEvent::Disconnect);
                    }
                },
            }
        };
        let block = match block {
            Some(block) => block,
            None => return frames,
        };
        let input: Vec<Vec<f64>> = block
            .into_iter()
            .map(|channel| channel.into_iter().map(|s| (s as f64 / 32768.0).clamp(-1.0, 1.0)).collect())
            .collect();
        let output = converter.process(&input, None).unwrap();
        let frame: Vec<i16> = (0..output[0].len())
            .map(|i| (((output[0][i] + output[1][i]) / 2.0) * 32768.0).clamp(-32768.0, 32768.0) as i16)
            .collect();
        frames.push(frame);
    }
}

fn record(frames: Vec<Vec<i16>>) -> Vec<i16> {
    let mut assistant = DiscordAssistant::new("model".to_string(), "Be brief.".to_string());
    let mut session = Session::new(1);
    assert!(session.on_wake(&mut assistant, Some(0), 0));
    let mut now = 0u64;
    for mut frame in frames {
        now += 32;
        assert!(!session.on_voice(&mut frame, Some(65536), now));
    }
    let mut last = Vec::new();
    assert!(!session.on_voice(&mut last, Some(0), now));
    assert!(session.on_voice(&mut Vec::new(), Some(0), now + 3000));
    match session.conclude(&mut assistant, now + 3000) {
        Conclusion::Utterance(samples) => {
            assert_eq!(session.state(), ConversationState::Responding);
            samples
        }
        other => panic!("expected an utterance, got {:?}", other),
    }
}

#[test]
fn packets_and_whole_utterance_give_the_same_recording() {
    let samples = utterance();
    let packets: Vec<Vec<i16>> = samples.chunks(1920).map(|chunk| chunk.to_vec()).collect();
    let through_packets = record(mono_frames(packets));
    let direct = record(mono_frames(vec![samples]));
    assert_eq!(through_packets.len(), direct.len());
    assert_eq!(through_packets, direct);
    assert_eq!(direct.len() % FRAME_LENGTH, 0);
    assert!(direct.len() >= 15_000);
    assert!(direct.len() <= 16_000);
}

#[test]
fn uneven_packets_give_the_same_recording() {
    let samples = utterance();
    let mut packets = Vec::new();
    let mut rest = &samples[..];
    let mut size = 1usize;
    while !rest.is_empty() {
        let take = size.min(rest.len());
        packets.push(rest[..take].to_vec());
        rest = &rest[take..];
        size = size * 3 % 4093 + 1;
    }
    let through_packets = record(mono_frames(packets));
    let direct = record(mono_frames(vec![samples]));
    assert_eq!(through_packets, direct);
}
