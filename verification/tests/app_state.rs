use aether_echo::groq::GroqError;
use aether_echo::pipeline::{
    on_answer, on_segment_ready, on_transcription, should_auto_start, stop_pipeline, vad_config_for,
    AnswerDecision,
    TranscriptDecision,
};
use aether_echo::state::{
    default_click_through_hotkey, default_screenshot_solve_hotkey, default_silence_timeout,
    settings_problem, AppStateInner, AppStatus, Settings, DEFAULT_OVERLAY_OPACITY_BITS,
    DEFAULT_VAD_SENSITIVITY_BITS,
};

#[test]
fn default_settings() {
    let s = Settings::default();
    assert_eq!(s.model, "llama-3.3-70b-versatile");
    assert_eq!(f32::from_bits(s.overlay_opacity_bits), 0.88f32);
    assert_eq!(f32::from_bits(s.vad_sensitivity_bits), 0.015f32);
    assert_eq!(DEFAULT_OVERLAY_OPACITY_BITS, 0.88f32.to_bits());
    assert_eq!(DEFAULT_VAD_SENSITIVITY_BITS, 0.015f32.to_bits());
    assert_eq!(s.hotkey_toggle_overlay, "CommandOrControl+Alt+Shift+O");
    assert_eq!(s.hotkey_toggle_listening, "CommandOrControl+Alt+Shift+L");
    assert_eq!(s.hotkey_toggle_click_through, "CommandOrControl+Alt+Shift+K");
    assert_eq!(s.hotkey_screenshot_solve, "CommandOrControl+Alt+Shift+S");
    assert_eq!(s.vad_silence_timeout, 1000);
    assert!(!s.auto_start_listening);
    assert_eq!(s.whisper_model, "tiny");
    assert!(s.system_prompt.starts_with("You are an expert AI assistant helping someone in a technical interview. Provide"));
    assert!(s.system_prompt.ends_with("unless the question requires more depth."));
    assert!(s.overlay_click_through);
    assert_eq!(s.theme, "dark");
}

#[test]
fn serde_fallback_defaults() {
    assert_eq!(default_silence_timeout(), 1000);
    assert_eq!(default_click_through_hotkey(), "CommandOrControl+Alt+Shift+K");
    assert_eq!(default_screenshot_solve_hotkey(), "CommandOrControl+Alt+Shift+S");
}

#[test]
fn default_state_is_idle() {
    let st = AppStateInner::default();
    assert!(matches!(st.status, AppStatus::Idle));
    assert!(!st.is_listening);
    assert!(st.current_transcript.is_empty());
    assert!(st.current_answer.is_empty());
    assert!(st.audio_stop_tx.is_none());
    assert!(!st.overlay_visible);
    assert!(st.model_path.is_none());
    assert_eq!(st.settings.theme, "dark");
    assert_eq!(st.settings.vad_silence_timeout, 1000);
}

#[test]
fn toggles_leave_other_fields_alone() {
    let mut st = AppStateInner::default();
    st.current_transcript = "t".to_string();
    st.current_answer = "a".to_string();
    st.model_path = Some("p".to_string());
    st.toggle_overlay(None);
    st.toggle_click_through();
    st.record_visual_answer("b".to_string());
    assert!(st.overlay_visible);
    assert_eq!(st.model_path.as_deref(), Some("p"));
    assert_eq!(st.current_answer, "b");
}

#[test]
fn overlay_toggles() {
    let mut st = AppStateInner::default();
    assert!(st.toggle_overlay(None));
    assert!(st.overlay_visible);
    assert!(!st.toggle_overlay(None));
    assert!(!st.overlay_visible);
    assert!(st.toggle_overlay(Some(true)));
    assert!(st.toggle_overlay(Some(true)));
    assert!(st.overlay_visible);
    assert!(!st.toggle_overlay(Some(false)));
}

#[test]
fn click_through_toggles_twice_back() {
    let mut st = AppStateInner::default();
    let before = st.settings.overlay_click_through;
    assert_eq!(st.toggle_click_through(), !before);
    assert_eq!(st.toggle_click_through(), before);
    assert_eq!(st.settings.overlay_click_through, before);
}

#[test]
fn start_then_stop_signals_the_capture() {
    let mut st = AppStateInner::default();
    st.current_transcript = "old".to_string();
    st.current_answer = "old answer".to_string();
    let (tx, rx) = crossbeam_channel::bounded::<()>(1);
    st.begin_listening(tx);
    assert!(st.is_listening);
    assert!(matches!(st.status, AppStatus::Listening));
    assert!(st.current_transcript.is_empty());
    assert!(st.current_answer.is_empty());
    assert!(st.audio_stop_tx.is_some());
    assert!(rx.try_recv().is_err());
    let tx = stop_pipeline(&mut st).expect("the stop sender");
    assert!(!st.is_listening);
    assert!(matches!(st.status, AppStatus::Idle));
    assert!(st.audio_stop_tx.is_none());
    tx.try_send(()).unwrap();
    assert!(rx.try_recv().is_ok());
    // stopping again hands back nothing and changes nothing
    assert!(stop_pipeline(&mut st).is_none());
    assert!(!st.is_listening);
    assert!(matches!(st.status, AppStatus::Idle));
}

#[test]
fn set_stopped_keeps_the_signal() {
    let mut st = AppStateInner::default();
    let (tx, _rx) = crossbeam_channel::bounded::<()>(1);
    st.begin_listening(tx);
    st.set_stopped();
    assert!(!st.is_listening);
    assert!(matches!(st.status, AppStatus::Idle));
    assert!(st.audio_stop_tx.is_some());
}

#[test]
fn visual_answer_is_recorded() {
    let mut st = AppStateInner::default();
    st.record_visual_answer("x = 4".to_string());
    assert_eq!(st.current_transcript, "[Visual Solve]");
    assert_eq!(st.current_answer, "x = 4");
}

#[test]
fn silence_timeout_sets_silent_chunks() {
    let mut s = Settings::default();
    assert_eq!(vad_config_for(&s).silence_chunks_to_end, 10);
    s.vad_silence_timeout = 50;
    assert_eq!(vad_config_for(&s).silence_chunks_to_end, 1);
    s.vad_silence_timeout = 0;
    assert_eq!(vad_config_for(&s).silence_chunks_to_end, 1);
    s.vad_silence_timeout = 350;
    let c = vad_config_for(&s);
    assert_eq!(c.silence_chunks_to_end, 3);
    assert_eq!(c.min_speech_chunks, 2);
    assert_eq!(c.max_duration_ms, 8000);
}

#[test]
fn transcription_outcomes() {
    let mut st = AppStateInner::default();
    st.is_listening = true;
    on_segment_ready(&mut st);
    assert!(matches!(st.status, AppStatus::Transcribing));

    match on_transcription(&mut st, Err(GroqError::RateLimited)) {
        TranscriptDecision::Report(m) => assert_eq!(
            m,
            "Transcription error: Rate limit exceeded — please wait a moment before trying again"
        ),
        _ => panic!("expected a report"),
    }
    assert!(matches!(st.status, AppStatus::Listening));

    assert!(matches!(on_transcription(&mut st, Ok("okay".to_string())), TranscriptDecision::Skip));
    assert!(matches!(st.status, AppStatus::Listening));
    assert!(st.current_transcript.is_empty());
    // four characters but six bytes: long enough
    match on_transcription(&mut st, Ok("née!".to_string())) {
        TranscriptDecision::Ask { transcript, .. } => assert_eq!(transcript, "née!"),
        _ => panic!("expected a question"),
    }

    match on_transcription(&mut st, Ok("What is a closure?".to_string())) {
        TranscriptDecision::Ask { transcript, model, system_prompt } => {
            assert_eq!(transcript, "What is a closure?");
            assert_eq!(model, "llama-3.3-70b-versatile");
            assert_eq!(system_prompt, st.settings.system_prompt);
        }
        _ => panic!("expected a question"),
    }
    assert!(matches!(st.status, AppStatus::Thinking));
    assert_eq!(st.current_transcript, "What is a closure?");
    assert!(st.is_listening);
}

#[test]
fn answer_outcomes() {
    let mut st = AppStateInner::default();
    st.status = AppStatus::Thinking;
    match on_answer(&mut st, "Q?", Ok("A.".to_string())) {
        AnswerDecision::Ready { transcript, answer } => {
            assert_eq!(transcript, "Q?");
            assert_eq!(answer, "A.");
        }
        _ => panic!("expected an answer"),
    }
    assert_eq!(st.current_answer, "A.");
    assert!(matches!(st.status, AppStatus::Listening));

    st.status = AppStatus::Thinking;
    match on_answer(&mut st, "Q?", Err(GroqError::ModelNotFound("x".to_string()))) {
        AnswerDecision::Report(m) => assert_eq!(m, "Model not available: x"),
        _ => panic!("expected a report"),
    }
    assert_eq!(st.current_answer, "A.");
    assert!(matches!(st.status, AppStatus::Listening));
}

#[test]
fn auto_start_needs_the_setting_a_key_and_the_model() {
    assert!(should_auto_start(true, true, true));
    assert!(!should_auto_start(false, true, true));
    assert!(!should_auto_start(true, false, true));
    assert!(!should_auto_start(true, true, false));
    assert!(!should_auto_start(false, false, false));
}

#[test]
fn settings_checks_before_saving() {
    assert_eq!(settings_problem(&Settings::default()), None);

    let mut s = Settings::default();
    for name in ["tiny", "base", "small"] {
        s.whisper_model = name.to_string();
        assert_eq!(settings_problem(&s), None);
    }
    s.whisper_model = "large".to_string();
    assert_eq!(
        settings_problem(&s).as_deref(),
        Some("Unknown whisper model: large")
    );
    s.whisper_model = " tiny".to_string();
    assert!(settings_problem(&s).is_some());

    let mut s = Settings::default();
    s.overlay_opacity_bits = 0.1f32.to_bits();
    assert_eq!(settings_problem(&s), None);
    s.overlay_opacity_bits = 1.0f32.to_bits();
    assert_eq!(settings_problem(&s), None);
    for bad in [0.05f32, 1.01, -0.5, f32::NAN, 0.0] {
        s.overlay_opacity_bits = bad.to_bits();
        assert_eq!(
            settings_problem(&s).as_deref(),
            Some("Overlay opacity must be between 0.1 and 1.0")
        );
    }

    let mut s = Settings::default();
    s.vad_sensitivity_bits = 0.001f32.to_bits();
    assert_eq!(settings_problem(&s), None);
    s.vad_sensitivity_bits = 0.1f32.to_bits();
    assert_eq!(settings_problem(&s), None);
    for bad in [0.0005f32, 0.2, -0.01, f32::INFINITY] {
        s.vad_sensitivity_bits = bad.to_bits();
        assert_eq!(
            settings_problem(&s).as_deref(),
            Some("Speech sensitivity must be between 0.001 and 0.1")
        );
    }

    // The model name is checked first.
    let mut s = Settings::default();
    s.whisper_model = "medium".to_string();
    s.overlay_opacity_bits = 2.0f32.to_bits();
    assert_eq!(
        settings_problem(&s).as_deref(),
        Some("Unknown whisper model: medium")
    );
}
