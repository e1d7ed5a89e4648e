use std::io::Cursor;

use tts_loop::engine::{ControlAction, SAMPLE_RATE, TtsLooper};
use tts_loop::errors::Error;
use tts_loop::request::Request;
use tts_loop::wav::{encode_wav_mono16, wav_declared_duration_ms};

fn engine_with_history(samples: Vec<i16>) -> TtsLooper {
    let mut looper = TtsLooper::new("slt".to_string());
    looper
        .handle_request(Request::StartJob { text: "say".to_string(), iterations: 1 })
        .unwrap();
    looper.complete_synthesize(&samples);
    looper.complete_playback();
    looper.complete_recognize("said".to_string());
    looper
}

#[test]
fn container_declares_a_duration_of_200_ms() {
    // 3200 samples at 16000 Hz mono: 0.2 seconds.
    let looper = engine_with_history(vec![0; 3200]);
    let bytes = looper.save_full_wav().unwrap();
    assert_eq!(bytes.len(), 44 + 2 * 3200);
    assert_eq!(wav_declared_duration_ms(&bytes), Some(200));
}

#[test]
fn save_while_a_job_is_active_is_busy() {
    let mut looper = TtsLooper::new("slt".to_string());
    looper
        .handle_request(Request::StartJob { text: "say".to_string(), iterations: 1 })
        .unwrap();
    match looper.save_full_wav() {
        Err(Error::Busy { attempted_action, blocking_action }) => {
            assert_eq!(attempted_action, "save");
            assert_eq!(blocking_action, "tts loop");
        },
        _ => panic!("saving must be refused while a job is active"),
    }
    let r = looper.handle_request(Request::Save { path: "out.wav".to_string() });
    assert!(matches!(r, Err(Error::Busy { .. })));
}

#[test]
fn save_request_hands_the_container_and_path_to_the_driver() {
    let mut looper = engine_with_history(vec![1, -1, 2]);
    let r = looper.handle_request(Request::Save { path: "out.wav".to_string() });
    match r {
        Ok(ControlAction::SaveWav { path, bytes }) => {
            assert_eq!(path, "out.wav");
            assert_eq!(bytes.len(), 44 + 6);
        },
        _ => panic!("an idle engine must serialize its history"),
    }
}

#[test]
fn header_fields_are_canonical_pcm() {
    let bytes = encode_wav_mono16(&vec![0, 1], SAMPLE_RATE);
    assert_eq!(&bytes[0..4], b"RIFF");
    assert_eq!(&bytes[8..12], b"WAVE");
    assert_eq!(&bytes[12..16], b"fmt ");
    assert_eq!(&bytes[36..40], b"data");
    // Format chunk: PCM, one channel, 16 bits per sample.
    assert_eq!(u16::from_le_bytes([bytes[20], bytes[21]]), 1);
    assert_eq!(u16::from_le_bytes([bytes[22], bytes[23]]), 1);
    assert_eq!(u32::from_le_bytes([bytes[24], bytes[25], bytes[26], bytes[27]]), 16000);
    assert_eq!(u32::from_le_bytes([bytes[28], bytes[29], bytes[30], bytes[31]]), 32000);
    assert_eq!(u16::from_le_bytes([bytes[32], bytes[33]]), 2);
    assert_eq!(u16::from_le_bytes([bytes[34], bytes[35]]), 16);
    assert_eq!(u32::from_le_bytes([bytes[40], bytes[41], bytes[42], bytes[43]]), 4);
}

#[test]
fn the_outside_decoder_reads_the_container_back() {
    let samples: Vec<i16> = vec![0, 1, -1, 32767, -32768, 12345, -12345];
    let bytes = encode_wav_mono16(&samples, SAMPLE_RATE);

    let reader = hound::WavReader::new(Cursor::new(bytes)).unwrap();
    let spec = reader.spec();
    assert_eq!(spec.channels, 1);
    assert_eq!(spec.sample_rate, 16000);
    assert_eq!(spec.bits_per_sample, 16);
    assert_eq!(spec.sample_format, hound::SampleFormat::Int);

    let decoded: Vec<i16> = reader.into_samples::<i16>().map(|s| s.unwrap()).collect();
    assert_eq!(decoded, samples);
}

#[test]
fn empty_history_is_a_valid_empty_container() {
    let bytes = encode_wav_mono16(&Vec::new(), SAMPLE_RATE);
    assert_eq!(bytes.len(), 44);
    assert_eq!(wav_declared_duration_ms(&bytes), Some(0));
    let reader = hound::WavReader::new(Cursor::new(bytes)).unwrap();
    assert_eq!(reader.duration(), 0);
}

#[test]
fn duration_of_a_malformed_buffer_is_undeclared() {
    assert_eq!(wav_declared_duration_ms(&vec![0; 10]), None);
    // A header-sized buffer declaring a zero sample rate declares nothing.
    assert_eq!(wav_declared_duration_ms(&vec![0; 44]), None);
}
