use aether_echo::vad::{AudioChunk, Vad, VadConfig};

fn chunk(samples: &[i32]) -> AudioChunk<i32> {
    AudioChunk { samples: samples.to_vec(), sample_rate: 1000, channels: 1 }
}

fn config() -> VadConfig {
    VadConfig { silence_chunks_to_end: 2, min_speech_chunks: 2, max_duration_ms: 1000 }
}

#[test]
fn default_config_values() {
    let c = VadConfig::default();
    assert_eq!(c.silence_chunks_to_end, 4);
    assert_eq!(c.min_speech_chunks, 2);
    assert_eq!(c.max_duration_ms, 8000);
}

#[test]
fn silence_while_idle_is_ignored() {
    let mut vad: Vad<i32> = Vad::new(config());
    assert!(vad.process_chunk(chunk(&[1, 2, 3]), false).is_none());
    assert!(!vad.is_speaking());
    assert_eq!(vad.speech_chunk_count(), 0);
}

#[test]
fn segment_ends_after_enough_silence_without_trailing_silence() {
    let mut vad: Vad<i32> = Vad::new(config());
    assert!(vad.process_chunk(chunk(&[1, 2]), true).is_none());
    assert!(vad.process_chunk(chunk(&[3]), true).is_none());
    assert!(vad.process_chunk(chunk(&[90]), false).is_none());
    let seg = vad.process_chunk(chunk(&[91]), false).expect("segment");
    assert_eq!(seg.samples, vec![1, 2, 3]);
    assert_eq!(seg.sample_rate, 1000);
    assert_eq!(seg.channels, 1);
    assert!(!vad.is_speaking());
}

#[test]
fn trailing_silence_is_kept_when_speech_resumes() {
    let mut vad: Vad<i32> = Vad::new(config());
    assert!(vad.process_chunk(chunk(&[1]), true).is_none());
    assert!(vad.process_chunk(chunk(&[0, 0]), false).is_none());
    assert!(vad.process_chunk(chunk(&[2]), true).is_none());
    assert_eq!(vad.speech_chunk_count(), 2);
    assert!(vad.process_chunk(chunk(&[9]), false).is_none());
    let seg = vad.process_chunk(chunk(&[9]), false).expect("segment");
    assert_eq!(seg.samples, vec![1, 0, 0, 2]);
}

#[test]
fn too_short_speech_is_discarded() {
    let mut vad: Vad<i32> = Vad::new(config());
    assert!(vad.process_chunk(chunk(&[5, 6]), true).is_none());
    assert!(vad.process_chunk(chunk(&[0]), false).is_none());
    assert!(vad.process_chunk(chunk(&[0]), false).is_none());
    assert!(!vad.is_speaking());
    assert_eq!(vad.speech_chunk_count(), 0);
    // the next segment starts from nothing
    assert!(vad.process_chunk(chunk(&[7]), true).is_none());
    assert!(vad.process_chunk(chunk(&[8]), true).is_none());
    assert!(vad.process_chunk(chunk(&[0]), false).is_none());
    let seg = vad.process_chunk(chunk(&[0]), false).expect("segment");
    assert_eq!(seg.samples, vec![7, 8]);
}

#[test]
fn long_speech_is_flushed_at_the_duration_limit() {
    // 10 ms at 1000 Hz mono is 10 samples
    let cfg = VadConfig { silence_chunks_to_end: 4, min_speech_chunks: 2, max_duration_ms: 10 };
    let mut vad: Vad<i32> = Vad::new(cfg);
    assert!(vad.process_chunk(chunk(&[1, 2, 3, 4]), true).is_none());
    assert!(vad.process_chunk(chunk(&[0]), false).is_none());
    assert!(vad.process_chunk(chunk(&[5, 6, 7, 8]), true).is_none());
    let seg = vad.process_chunk(chunk(&[9]), true).expect("segment");
    assert_eq!(seg.samples, vec![1, 2, 3, 4, 0, 5, 6, 7, 8, 9]);
    assert!(!vad.is_speaking());
}

#[test]
fn duration_limit_counts_all_channels() {
    // 8000 ms at 1000 Hz and 2 channels is 16000 interleaved samples
    let mut vad: Vad<i32> = Vad::new(VadConfig::default());
    let big = vec![1i32; 15999];
    let first = AudioChunk { samples: big, sample_rate: 1000, channels: 2 };
    assert!(vad.process_chunk(first, true).is_none());
    let second = AudioChunk { samples: vec![2], sample_rate: 1000, channels: 2 };
    let seg = vad.process_chunk(second, true).expect("segment");
    assert_eq!(seg.samples.len(), 16000);
    assert_eq!(seg.channels, 2);
}

#[test]
fn works_with_float_samples() {
    let mut vad: Vad<f32> = Vad::new(config());
    let c = |s: &[f32], speech: bool| (AudioChunk { samples: s.to_vec(), sample_rate: 16000, channels: 1 }, speech);
    let (a, sa) = c(&[0.5, -0.5], true);
    assert!(vad.process_chunk(a, sa).is_none());
    let (b, sb) = c(&[0.25], true);
    assert!(vad.process_chunk(b, sb).is_none());
    let (d, sd) = c(&[0.0], false);
    assert!(vad.process_chunk(d, sd).is_none());
    let (e, se) = c(&[0.0], false);
    let seg = vad.process_chunk(e, se).expect("segment");
    assert_eq!(seg.samples, vec![0.5, -0.5, 0.25]);
}

#[test]
fn after_a_segment_the_detector_acts_like_a_fresh_one() {
    let mut used: Vad<i32> = Vad::new(config());
    assert!(used.process_chunk(chunk(&[1]), true).is_none());
    assert!(used.process_chunk(chunk(&[2]), true).is_none());
    assert!(used.process_chunk(chunk(&[0]), false).is_none());
    assert!(used.process_chunk(chunk(&[0]), false).is_some());
    let mut fresh: Vad<i32> = Vad::new(config());
    let script: Vec<(Vec<i32>, bool)> = vec![
        (vec![0], false),
        (vec![5], true),
        (vec![6, 7], true),
        (vec![0], false),
        (vec![8], true),
        (vec![0], false),
        (vec![0], false),
    ];
    for (samples, speech) in script {
        let a = used.process_chunk(chunk(&samples), speech).map(|s| s.samples);
        let b = fresh.process_chunk(chunk(&samples), speech).map(|s| s.samples);
        assert_eq!(a, b);
    }
    assert_eq!(used.speech_chunk_count(), fresh.speech_chunk_count());
}
