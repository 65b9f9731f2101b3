use venkyai::capture::audio::{clip_from, encode_clip, AudioBuffer, AudioError, CaptureController, CapturedFrame};
use venkyai::capture::sample::{decode_samples, Sample};

fn sample(value: f32) -> Sample {
    Sample::from_bits(value.to_bits())
}

fn samples(values: &[f32]) -> Vec<Sample> {
    values.iter().map(|v| sample(*v)).collect()
}

#[test]
fn samples_beyond_the_range_are_clamped() {
    assert_eq!(sample(1.5).to_pcm(), 32767);
    assert_eq!(sample(-1.5).to_pcm(), -32768);
    assert_eq!(sample(0.0).to_pcm(), 0);
}

#[test]
fn samples_are_scaled_and_rounded_to_the_nearest_integer() {
    assert_eq!(sample(1.0).to_pcm(), 32767);
    assert_eq!(sample(-1.0).to_pcm(), -32767);
    assert_eq!(sample(0.5).to_pcm(), 16384);
    assert_eq!(sample(-0.5).to_pcm(), -16384);
    assert_eq!(sample(0.25).to_pcm(), 8192);
    assert_eq!(sample(-0.0).to_pcm(), 0);
    assert_eq!(sample(1.0e-30).to_pcm(), 0);
    assert_eq!(sample(f32::MIN_POSITIVE / 4.0).to_pcm(), 0);
    assert_eq!(sample(f32::INFINITY).to_pcm(), 32767);
    assert_eq!(sample(f32::NEG_INFINITY).to_pcm(), -32768);
    assert_eq!(sample(f32::NAN).to_pcm(), 0);
    assert_eq!(sample(3.0e38).to_pcm(), 32767);
    assert_eq!(sample(-1.00002).to_pcm(), -32768);
}

#[test]
fn to_pcm_agrees_with_rounding_in_double_precision() {
    let mut bits: u32 = 0x3000_0000;
    while bits < 0x4100_0000 {
        for signed in [bits, bits | 0x8000_0000] {
            let value = f32::from_bits(signed) as f64;
            let expected = (value * 32767.0).round().clamp(-32768.0, 32767.0) as i16;
            assert_eq!(Sample::from_bits(signed).to_pcm(), expected, "bits {:#x}", signed);
        }
        bits += 0x0000_3777;
    }
}

#[test]
fn from_pcm_gives_the_sample_divided_by_32768() {
    for value in [0i16, 1, -1, 2, 3, 255, 256, 16384, -16384, 32767, -32767, -32768, 12345, -4321] {
        let expected = value as f32 / 32768.0;
        assert_eq!(Sample::from_pcm(value).to_bits(), expected.to_bits(), "value {}", value);
    }
}

#[test]
fn frame_bytes_decode_in_groups_of_four() {
    let mut data = Vec::new();
    data.extend_from_slice(&0.5f32.to_le_bytes());
    data.extend_from_slice(&(-1.0f32).to_le_bytes());
    data.extend_from_slice(&[1, 2, 3]);
    assert_eq!(decode_samples(&data, true), samples(&[0.5, -1.0]));
    let mut big = Vec::new();
    big.extend_from_slice(&0.5f32.to_be_bytes());
    assert_eq!(decode_samples(&big, false), samples(&[0.5]));
    assert_eq!(decode_samples(&[1, 2, 3], true), Vec::<Sample>::new());
}

#[test]
fn encoded_clip_is_a_mono_16_bit_wave_file() {
    let bytes = encode_clip(16000, &samples(&[0.0, 1.5, -1.5, 0.5])).expect("encodes");
    let mut expected: Vec<u8> = Vec::new();
    expected.extend_from_slice(b"RIFF");
    expected.extend_from_slice(&(36u32 + 8).to_le_bytes());
    expected.extend_from_slice(b"WAVEfmt ");
    expected.extend_from_slice(&16u32.to_le_bytes());
    expected.extend_from_slice(&1u16.to_le_bytes());
    expected.extend_from_slice(&1u16.to_le_bytes());
    expected.extend_from_slice(&16000u32.to_le_bytes());
    expected.extend_from_slice(&32000u32.to_le_bytes());
    expected.extend_from_slice(&2u16.to_le_bytes());
    expected.extend_from_slice(&16u16.to_le_bytes());
    expected.extend_from_slice(b"data");
    expected.extend_from_slice(&8u32.to_le_bytes());
    for pcm in [0i16, 32767, -32768, 16384] {
        expected.extend_from_slice(&pcm.to_le_bytes());
    }
    assert_eq!(bytes, expected);
}

#[test]
fn encoded_clip_reads_back_through_a_wave_reader() {
    let bytes = encode_clip(44100, &samples(&[0.25, -0.25, 1.0])).expect("encodes");
    let mut reader = hound::WavReader::new(std::io::Cursor::new(bytes)).expect("valid WAVE");
    let spec = reader.spec();
    assert_eq!(spec.channels, 1);
    assert_eq!(spec.sample_rate, 44100);
    assert_eq!(spec.bits_per_sample, 16);
    let read: Vec<i16> = reader.samples::<i16>().map(|s| s.unwrap()).collect();
    assert_eq!(read, vec![8192, -8192, 32767]);
}

#[test]
fn a_rate_that_the_format_cannot_hold_is_an_encoding_error() {
    let one = samples(&[0.5]);
    assert!(matches!(encode_clip(0, &one), Err(AudioError::EncodingError(_))));
    assert!(matches!(encode_clip(0x8000_0000, &one), Err(AudioError::EncodingError(_))));
    assert!(encode_clip(0x7fff_ffff, &one).is_ok());
}

#[test]
fn drain_of_an_empty_buffer_is_refused() {
    let mut buffer = AudioBuffer::new();
    assert_eq!(buffer.drain_to_encoded_clip(), Err(AudioError::EmptyBuffer));
    assert_eq!(buffer.encoded_clip(), Err(AudioError::EmptyBuffer));
    assert_eq!(buffer.sample_rate(), 44100);
}

#[test]
fn two_drains_share_nothing_and_together_hold_everything() {
    let mut buffer = AudioBuffer::new();
    buffer.reset(8000);
    buffer.append(&samples(&[0.1, 0.2]));
    buffer.append(&samples(&[0.3]));
    let first = buffer.drain();
    assert!(buffer.is_empty());
    buffer.append(&samples(&[0.4, 0.5]));
    let second = buffer.drain();
    assert!(buffer.is_empty());
    assert_eq!(first, samples(&[0.1, 0.2, 0.3]));
    assert_eq!(second, samples(&[0.4, 0.5]));
    let mut all = first.clone();
    all.extend(second);
    assert_eq!(all, samples(&[0.1, 0.2, 0.3, 0.4, 0.5]));
    assert_eq!(buffer.sample_rate(), 8000);
}

#[test]
fn drain_to_clip_empties_the_buffer_and_keeps_the_rate() {
    let mut buffer = AudioBuffer::new();
    buffer.reset(22050);
    buffer.append(&samples(&[0.5, -0.5]));
    let kept = buffer.encoded_clip().expect("encodes");
    assert_eq!(buffer.len(), 2);
    let clip = buffer.drain_to_encoded_clip().expect("encodes");
    assert_eq!(clip, kept);
    assert_eq!(clip.len(), 44 + 4);
    assert!(buffer.is_empty());
    assert_eq!(buffer.sample_rate(), 22050);
    assert_eq!(buffer.drain_to_encoded_clip(), Err(AudioError::EmptyBuffer));
}

#[test]
fn drain_consumes_the_samples_even_where_encoding_fails() {
    let mut buffer = AudioBuffer::new();
    buffer.reset(0);
    buffer.append(&samples(&[0.5]));
    assert!(matches!(buffer.drain_to_encoded_clip(), Err(AudioError::EncodingError(_))));
    assert!(buffer.is_empty());
}

#[test]
fn controller_goes_from_idle_to_capturing_and_back() {
    let mut mic = CaptureController::new();
    assert_eq!(mic.stop(), Err(AudioError::NotCapturing));
    assert_eq!(mic.start(48000), Ok(()));
    assert!(mic.is_capturing());
    assert_eq!(mic.start(16000), Err(AudioError::AlreadyCapturing));
    assert_eq!(mic.sample_rate(), 48000);
    mic.push(&samples(&[0.1, 0.2]));
    assert_eq!(mic.stop(), Ok(samples(&[0.1, 0.2])));
    assert!(!mic.is_capturing());
    assert_eq!(mic.buffered(), 2);
    mic.push(&samples(&[0.3]));
    assert_eq!(mic.buffered(), 2);
    assert_eq!(mic.stop(), Err(AudioError::NotCapturing));
    assert_eq!(mic.start(16000), Ok(()));
    assert_eq!(mic.buffered(), 0);
    mic.cancel();
    assert!(!mic.is_capturing());
}

#[test]
fn system_capture_needs_permission_and_a_free_source() {
    let mut system = CaptureController::new();
    assert_eq!(system.start_system(false), Err(AudioError::PermissionDenied));
    assert!(!system.is_capturing());
    assert_eq!(system.start_system(true), Ok(()));
    assert_eq!(system.start_system(true), Err(AudioError::AlreadyCapturing));
    assert_eq!(system.start_system(false), Err(AudioError::AlreadyCapturing));
}

#[test]
fn frames_are_kept_skipped_or_end_the_capture() {
    let mut system = CaptureController::new();
    assert_eq!(system.start_system(true), Ok(()));
    let audio = CapturedFrame::Audio { float_format: true, data: 0.5f32.to_le_bytes().to_vec() };
    assert!(system.accept_frame(&audio, true));
    let wrong = CapturedFrame::Audio { float_format: false, data: vec![1, 2, 3, 4] };
    assert!(system.accept_frame(&wrong, true));
    assert!(system.accept_frame(&CapturedFrame::Other, true));
    assert!(!system.accept_frame(&CapturedFrame::Failed, true));
    assert_eq!(system.stop(), Ok(samples(&[0.5])));
}

#[test]
fn audio_errors_read_as_their_messages() {
    assert_eq!(AudioError::AlreadyCapturing.message(), "Already recording");
    assert_eq!(AudioError::NotCapturing.message(), "Not recording");
    assert_eq!(AudioError::EmptyBuffer.message(), "No audio data");
    assert_eq!(
        AudioError::PermissionDenied.message(),
        "System audio capture permission not granted"
    );
    assert_eq!(AudioError::EncodingError("WAV error: x".to_string()).message(), "WAV error: x");
}

fn pcm_of_clip(clip: &[u8]) -> Vec<i16> {
    assert_eq!(&clip[..4], b"RIFF");
    clip[44..].chunks(2).map(|b| i16::from_le_bytes([b[0], b[1]])).collect()
}

#[test]
fn a_drain_of_samples_that_fit_always_gives_their_clip() {
    for (values, expected) in [
        (vec![1.5f32], vec![32767i16]),
        (vec![-1.5], vec![-32768]),
        (vec![0.0], vec![0]),
        (vec![0.5, -0.5], vec![16384, -16384]),
    ] {
        let mut buffer = AudioBuffer::new();
        buffer.append(&samples(&values));
        let clip = buffer.drain_to_encoded_clip().expect("a clip is owed");
        assert_eq!(pcm_of_clip(&clip), expected);
        assert_eq!(&clip[24..28], &44100u32.to_le_bytes());
        assert!(buffer.is_empty());
    }
}

#[test]
fn consecutive_drains_give_clips_that_share_nothing() {
    let mut buffer = AudioBuffer::new();
    buffer.reset(16000);
    buffer.append(&samples(&[0.0, 1.5]));
    let first = buffer.drain_to_encoded_clip().expect("a clip is owed");
    buffer.append(&samples(&[-1.5]));
    let second = buffer.drain_to_encoded_clip().expect("a clip is owed");
    assert_eq!(pcm_of_clip(&first), vec![0, 32767]);
    assert_eq!(pcm_of_clip(&second), vec![-32768]);
    assert_eq!(buffer.drain_to_encoded_clip(), Err(AudioError::EmptyBuffer));
}

#[test]
fn a_clip_is_owed_up_to_the_largest_rate_and_refused_beyond() {
    let one = samples(&[0.25]);
    for rate in [1u32, 8000, 44100, 0x7fff_ffff] {
        let clip = encode_clip(rate, &one).expect("a clip is owed");
        assert_eq!(&clip[24..28], &rate.to_le_bytes());
        assert_eq!(pcm_of_clip(&clip), vec![8192]);
    }
    assert!(encode_clip(44100, &vec![]).is_ok());
    assert!(matches!(encode_clip(0, &one), Err(AudioError::EncodingError(_))));
    assert!(matches!(encode_clip(u32::MAX, &one), Err(AudioError::EncodingError(_))));
}

#[test]
fn what_the_writer_answered_becomes_the_answer_of_the_library() {
    assert_eq!(clip_from(Ok(vec![1, 2, 3])), Ok(vec![1, 2, 3]));
    match clip_from(Err(hound::Error::Unsupported)) {
        Err(AudioError::EncodingError(detail)) => {
            assert!(detail.starts_with("WAV error: "));
            assert!(detail.len() > "WAV error: ".len());
        }
        other => panic!("an encoding error was due, got {:?}", other),
    }
}
