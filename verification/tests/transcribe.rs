use whisper::config::Config;
use whisper::transcribe::{
    after_filter, after_transcription, concat_segments, engine_threads, transcript, AfterFilter,
    WorkerOutcome,
};

/// Samples that hold their own position.
fn ramp(n: usize) -> Vec<f32> {
    (0..n).map(|i| i as f32).collect()
}

#[test]
fn concat_converts_centiseconds_to_indices() {
    let samples = ramp(16_000);
    let out = concat_segments(&samples, &[(0, 50)]);
    assert_eq!(out.len(), 8_000);
    assert_eq!(out[0], 0.0);
    assert_eq!(out[7_999], 7_999.0);
}

#[test]
fn concat_preserves_segment_order() {
    let samples = ramp(32_000);
    let out = concat_segments(&samples, &[(0, 50), (100, 150)]);
    assert_eq!(out.len(), 16_000);
    assert_eq!(out[0], 0.0);
    assert_eq!(out[7_999], 7_999.0);
    assert_eq!(out[8_000], 16_000.0);
    assert_eq!(out[15_999], 23_999.0);
}

#[test]
fn concat_clamps_to_buffer_bounds() {
    let samples = ramp(16_000);
    let out = concat_segments(&samples, &[(0, 200)]);
    assert_eq!(out, samples);
    let out = concat_segments(&samples, &[(-50, 50)]);
    assert_eq!(out.len(), 8_000);
}

#[test]
fn concat_ignores_empty_and_inverted_segments() {
    let samples = ramp(16_000);
    let out = concat_segments(&samples, &[(50, 50), (150, 100), (0, 10)]);
    assert_eq!(out.len(), 1_600);
    assert_eq!(out[0], 0.0);
}

#[test]
fn concat_empty_segments_returns_empty() {
    let samples = ramp(16_000);
    assert!(concat_segments(&samples, &[]).is_empty());
}

#[test]
fn extreme_times_are_clamped() {
    let samples = ramp(500);
    assert_eq!(concat_segments(&samples, &[(i64::MIN, i64::MAX)]), samples);
    assert!(concat_segments(&samples, &[(i64::MAX, i64::MIN)]).is_empty());
    assert!(concat_segments(&samples, &[(i64::MAX - 1, i64::MAX)]).is_empty());
}

#[test]
fn ordered_speech_is_no_longer_than_the_recording() {
    let samples = ramp(1_000);
    let out = concat_segments(&samples, &[(0, 2), (2, 4), (5, 9)]);
    assert_eq!(out.len(), 320 + 320 + 200);
}

#[test]
fn parts_are_joined_and_trimmed() {
    let parts = vec![" Olá,".to_string(), "mundo. ".to_string()];
    assert_eq!(transcript(&parts), "Olá, mundo.");
    assert_eq!(transcript(&Vec::new()), "");
}

#[test]
fn engine_has_at_least_one_thread() {
    assert_eq!(engine_threads(0), 1);
    assert_eq!(engine_threads(6), 6);
}

#[test]
fn recording_without_speech_ends_early() {
    match after_filter(3, ramp(100), Ok(Some(Vec::new()))) {
        AfterFilter::Done(out) => assert_eq!(
            out,
            WorkerOutcome::Transcribed { session: 3, text: String::new() }
        ),
        other => panic!("{other:?}"),
    }
    match after_filter(3, ramp(100), Err("erro".to_string())) {
        AfterFilter::Done(out) => assert_eq!(
            out,
            WorkerOutcome::Failed { session: 3, msg: "detecção de voz falhou: erro".to_string() }
        ),
        other => panic!("{other:?}"),
    }
}

#[test]
fn speech_is_transcribed() {
    match after_filter(3, ramp(500), Ok(Some(vec![(1, 2)]))) {
        AfterFilter::Transcribe { samples } => assert_eq!(samples, &ramp(500)[160..320]),
        other => panic!("{other:?}"),
    }
    match after_filter(3, ramp(5), Ok(None)) {
        AfterFilter::Transcribe { samples } => assert_eq!(samples, ramp(5)),
        other => panic!("{other:?}"),
    }
}

#[test]
fn transcriptions_are_cleaned() {
    let cfg = Config::default();
    let out = after_transcription(4, Ok("hmm olá".to_string()), None, false, &cfg);
    assert_eq!(out, WorkerOutcome::Transcribed { session: 4, text: "Olá.".to_string() });
    assert_eq!(out.session(), 4);
    let out = after_transcription(
        4,
        Ok("hmm olá".to_string()),
        Some("Olá!".to_string()),
        false,
        &cfg,
    );
    assert_eq!(out, WorkerOutcome::Transcribed { session: 4, text: "Olá!".to_string() });
    let out = after_transcription(4, Err("e".to_string()), None, false, &cfg);
    assert_eq!(
        out,
        WorkerOutcome::Failed { session: 4, msg: "transcrição falhou: e".to_string() }
    );
}
