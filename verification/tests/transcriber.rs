use impulse_voice::text::normalize_transcript;
use impulse_voice::transcriber::{
    check_wav_format, encode_audio_request, finish_transcript, model_file_paths,
    model_files_present, required_model_file_names, select_speech, trim_silence,
    validate_model_directory, worker_ready, worker_transcript, TranscribeError,
    TranscriberState, WorkerReply, SAMPLE_RATE, TRIM_PADDING_SAMPLES,
};

/// Loudness of each 160-sample window against the silence threshold.
fn window_activity(samples: &[f32]) -> Vec<bool> {
    samples
        .chunks(160)
        .map(|window| {
            let power = window.iter().map(|s| s * s).sum::<f32>() / window.len().max(1) as f32;
            power.sqrt() >= 0.004
        })
        .collect()
}

#[test]
fn silence_is_rejected() {
    let audio = vec![0.0f32; SAMPLE_RATE];
    assert!(trim_silence(&window_activity(&audio), audio.len()).is_none());
}

#[test]
fn speech_is_kept_with_padding() {
    let mut audio = vec![0.0f32; SAMPLE_RATE];
    audio[8_000..8_800].fill(0.2);
    let (start, end) = trim_silence(&window_activity(&audio), audio.len()).unwrap();
    let trimmed = &audio[start..end];
    assert!(trimmed.len() >= 800 + TRIM_PADDING_SAMPLES * 2);
    assert!(trimmed.len() < audio.len());
}

#[test]
fn trim_bounds_are_clipped_to_the_recording() {
    let mut active = vec![false; 10];
    active[0] = true;
    active[9] = true;
    assert_eq!(trim_silence(&active, 1_550), Some((0, 1_550)));
    let mut long = vec![false; 100];
    long[50] = true;
    assert_eq!(trim_silence(&long, 16_000), Some((4_000, 12_160)));
    assert_eq!(trim_silence(&[], 0), None);
}

#[test]
fn short_speech_is_refused() {
    let active = vec![true; 10];
    assert!(matches!(select_speech(&active, 1_600), Err(TranscribeError::TooShort)));
    assert!(matches!(select_speech(&vec![false; 10], 1_600), Err(TranscribeError::NoSpeech)));
    let mut long = vec![false; 100];
    long[50] = true;
    assert!(matches!(select_speech(&long, 16_000), Ok((4_000, 12_160))));
    assert_eq!(TranscribeError::TooShort.message(), "the recording is too short");
    assert_eq!(TranscribeError::NoSpeech.message(), "no speech was detected");
}

#[test]
fn transcript_whitespace_is_normalized() {
    assert_eq!(normalize_transcript(" bonjour  le\nmonde "), "bonjour le monde");
}

#[test]
fn normalisation_handles_unicode_whitespace_and_is_stable() {
    assert_eq!(normalize_transcript("\u{a0}un\u{2003}deux\t\ttrois\u{3000}"), "un deux trois");
    assert_eq!(normalize_transcript(""), "");
    assert_eq!(normalize_transcript(" \n\t "), "");
    let once = normalize_transcript("  a\u{85}b  c ");
    assert_eq!(once, "a b c");
    assert_eq!(normalize_transcript(&once), once);
}

#[test]
fn empty_transcripts_are_errors() {
    assert_eq!(finish_transcript("  Bonjour \n").ok().as_deref(), Some("Bonjour"));
    let err = finish_transcript(" \n ").err().unwrap();
    assert!(matches!(err, TranscribeError::EmptyTranscript));
    assert_eq!(err.message(), "Parakeet produced no text");
}

#[test]
fn model_directory_needs_every_file() {
    let paths = model_file_paths(b"/models/parakeet");
    assert_eq!(paths[0], b"/models/parakeet/model.safetensors".to_vec());
    assert_eq!(paths[3], b"/models/parakeet/ternary.json".to_vec());
    assert!(model_files_present(&[true; 4]));
    assert!(!model_files_present(&[true, true, false, true]));
    assert!(validate_model_directory(b"/m", &[true; 4]).is_ok());
    let err = validate_model_directory(b"/m", &[false, true, false, true]).err().unwrap();
    assert_eq!(err.missing, vec!["model.safetensors".to_string(), "tokenizer.json".to_string()]);
    assert_eq!(
        err.message(),
        "incomplete Parakeet model at /m (missing files: model.safetensors, tokenizer.json)"
    );
}

#[test]
fn the_worker_model_files_are_required() {
    let names = required_model_file_names();
    assert_eq!(names, ["model.safetensors", "config.json", "tokenizer.json", "ternary.json"]);
    // A directory holding only the ONNX export has none of them.
    let onnx_export =
        ["encoder-model.int8.onnx", "decoder_joint-model.int8.onnx", "nemo128.onnx", "vocab.txt"];
    for onnx in onnx_export {
        assert!(!names.contains(&onnx));
    }
    let err = validate_model_directory(b"/m", &[false; 4]).err().unwrap();
    assert_eq!(err.missing.len(), 4);
}

#[test]
fn audio_requests_are_length_prefixed_little_endian() {
    let bits = [0.5f32.to_bits(), (-1.0f32).to_bits()];
    let bytes = encode_audio_request(&bits).ok().unwrap();
    let mut expected = vec![8, 0, 0, 0];
    expected.extend_from_slice(&0.5f32.to_le_bytes());
    expected.extend_from_slice(&(-1.0f32).to_le_bytes());
    assert_eq!(bytes, expected);
    assert_eq!(encode_audio_request(&[]).ok().unwrap(), vec![0, 0, 0, 0]);
    let too_long = vec![0u32; SAMPLE_RATE * 300 + 1];
    assert!(matches!(encode_audio_request(&too_long), Err(TranscribeError::RecordingTooLong)));
}

fn reply(error: Option<&str>, ready: Option<bool>, text: Option<&str>) -> WorkerReply {
    WorkerReply {
        error: error.map(str::to_string),
        ready,
        text: text.map(str::to_string),
    }
}

#[test]
fn worker_replies_are_checked() {
    assert!(worker_ready(reply(None, Some(true), None)).is_ok());
    assert!(matches!(worker_ready(reply(None, Some(false), None)), Err(TranscribeError::NotReady)));
    assert!(matches!(worker_ready(reply(None, None, None)), Err(TranscribeError::NotReady)));
    let err = worker_ready(reply(Some("boom"), Some(true), None)).err().unwrap();
    assert_eq!(err.message(), "Photon: boom");
    assert_eq!(worker_transcript(reply(None, None, Some("salut"))).ok().as_deref(), Some("salut"));
    assert!(matches!(
        worker_transcript(reply(None, None, None)),
        Err(TranscribeError::MissingTranscript)
    ));
    let err = worker_transcript(reply(Some("oom"), None, Some("x"))).err().unwrap();
    assert_eq!(err.message(), "Photon: oom");
}

#[test]
fn wav_input_must_be_mono_16khz() {
    assert!(check_wav_format(1, 16_000).is_ok());
    assert!(check_wav_format(2, 16_000).is_err());
    let err = check_wav_format(1, 44_100).err().unwrap();
    assert_eq!(err.message(), "WAV input must be mono 16 kHz");
}

#[test]
fn worker_is_reused_then_released_when_idle() {
    let mut state: TranscriberState<u32> = TranscriberState::new();
    assert!(!state.is_loaded());
    assert!(!state.unload_if_idle(0, 0));
    state.install(7);
    let worker = state.take_model().unwrap();
    assert_eq!(worker, 7);
    state.finish_use(worker, true, 1_000);
    assert!(state.is_loaded());
    assert_eq!(state.take_model(), Some(7));
    state.finish_use(7, true, 2_000);
    assert!(!state.unload_if_idle(2_500, 600_000_000_000));
    assert!(state.is_loaded());
    assert!(state.unload_if_idle(2_500, 0));
    assert!(!state.is_loaded());
    assert_eq!(state.last_used(), None);
    assert!(!state.unload_if_idle(2_500, 0));
}

#[test]
fn failed_worker_is_dropped() {
    let mut state: TranscriberState<u32> = TranscriberState::new();
    state.install(1);
    let worker = state.take_model().unwrap();
    state.finish_use(worker, false, 5);
    assert!(!state.is_loaded());
    assert_eq!(state.last_used(), Some(5));
    assert!(state.unload_if_idle(10, 5) == false);
}
