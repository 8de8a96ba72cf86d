use voice_assistant::listener::{package_utterance, MAX_SAMPLE_RATE};

#[test]
fn utterance_is_packed_as_a_wav_container() {
    let bytes = package_utterance(vec![1, -2, 300], 16000).unwrap();
    let expected: Vec<u8> = vec![
        b'R', b'I', b'F', b'F', 42, 0, 0, 0, b'W', b'A', b'V', b'E',
        b'f', b'm', b't', b' ', 16, 0, 0, 0,
        1, 0, 1, 0, 0x80, 0x3e, 0, 0, 0x00, 0x7d, 0, 0, 2, 0, 16, 0,
        b'd', b'a', b't', b'a', 6, 0, 0, 0,
        0x01, 0x00, 0xfe, 0xff, 0x2c, 0x01,
    ];
    assert_eq!(bytes, expected);
}

#[test]
fn empty_utterance_is_a_bare_header() {
    let bytes = package_utterance(Vec::new(), 16000).unwrap();
    assert_eq!(bytes.len(), 44);
    assert_eq!(&bytes[0..4], b"RIFF");
    assert_eq!(&bytes[4..8], &[36, 0, 0, 0]);
    assert_eq!(&bytes[40..44], &[0, 0, 0, 0]);
}

#[test]
fn packed_utterance_reads_back() {
    let samples: Vec<i16> = (0..1000).map(|i| (i * 37 % 2000 - 1000) as i16).collect();
    let bytes = package_utterance(samples.clone(), 16000).unwrap();
    assert_eq!(bytes.len(), 44 + 2 * samples.len());
    let mut cursor = std::io::Cursor::new(bytes);
    let (header, data) = wav::read(&mut cursor).unwrap();
    assert_eq!(header.audio_format, wav::WAV_FORMAT_PCM);
    assert_eq!(header.channel_count, 1);
    assert_eq!(header.sampling_rate, 16000);
    assert_eq!(header.bits_per_sample, 16);
    assert_eq!(data.as_sixteen().unwrap(), &samples);
}

#[test]
fn highest_sample_rate_is_packed() {
    let bytes = package_utterance(vec![0], MAX_SAMPLE_RATE).unwrap();
    assert_eq!(&bytes[24..28], &MAX_SAMPLE_RATE.to_le_bytes());
    assert_eq!(&bytes[28..32], &(2 * MAX_SAMPLE_RATE).to_le_bytes());
}

#[test]
fn sample_rate_beyond_the_header_is_refused() {
    assert!(package_utterance(vec![0], MAX_SAMPLE_RATE + 1).is_none());
    assert!(package_utterance(vec![0], u32::MAX).is_none());
}
