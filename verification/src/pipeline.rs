//! Decisions of the listening pipeline: capture → voice-activity detection →
//! transcription → answer. The caller performs each step's outside work
//! (capture, HTTP calls, UI events) and hands the outcome to these functions,
//! which update the shared state and say what to do next.

use vstd::prelude::*;
use crate::groq::{GroqError, groq_error_text};
use crate::state::{AppStateInner, AppStatus, Settings};
use crossbeam_channel::Sender;
use crate::text::concat2;
use crate::vad::VadConfig;

verus! {

/// Chunks of captured audio last about this many milliseconds.
pub const CHUNK_MS: u32 = 100;

/// Transcripts shorter than this many bytes are taken as noise.
pub const MIN_TRANSCRIPT_BYTES: usize = 5;

/// What happens in the pipeline, as far as the status goes.
pub enum PipelineEvent {
    /// Listening starts.
    Started,
    /// A speech segment is ready for transcription.
    SegmentReady,
    /// Transcription failed, or heard only noise.
    NothingToAsk,
    /// A question was heard and goes to the chat model.
    QuestionHeard,
    /// The chat model answered, or failed to.
    AnswerOutcome,
    /// The pipeline ends.
    Ended,
}

/// The status that each event leaves.
pub open spec fn status_after(ev: PipelineEvent) -> AppStatus {
    match ev {
        PipelineEvent::Started => AppStatus::Listening,
        PipelineEvent::SegmentReady => AppStatus::Transcribing,
        PipelineEvent::NothingToAsk => AppStatus::Listening,
        PipelineEvent::QuestionHeard => AppStatus::Thinking,
        PipelineEvent::AnswerOutcome => AppStatus::Listening,
        PipelineEvent::Ended => AppStatus::Idle,
    }
}

/// The pipeline never puts the status in the error state: errors are
/// reported and listening goes on. While it runs the status is listening,
/// transcribing or thinking; when it ends the status is idle.
pub proof fn lemma_pipeline_status_lifecycle(ev: PipelineEvent)
    ensures
        !(status_after(ev) is Error),
        ev is Ended <==> status_after(ev) is Idle,
        !(ev is Ended) ==> (status_after(ev) is Listening || status_after(ev) is Transcribing
            || status_after(ev) is Thinking),
{
}

/// Whether listening starts by itself at launch: only when the setting asks
/// for it, an API key is stored, and the speech model is on disk.
pub fn should_auto_start(enabled: bool, has_key: bool, model_present: bool) -> (b: bool)
    ensures
        b == (enabled && has_key && model_present),
{
    enabled && has_key && model_present
}

/// Number of silent chunks that ends a segment for a silence timeout: one
/// per full chunk length, and at least one.
pub open spec fn silence_chunks_for(timeout_ms: u32) -> usize {
    if timeout_ms / 100 >= 1 {
        (timeout_ms / 100) as usize
    } else {
        1
    }
}

/// The detector configuration for the user's settings: the silence timeout
/// sets how many silent chunks end a segment; the rest are the defaults.
/// (The energy threshold is the `vad_sensitivity` setting, applied by the
/// caller to each chunk.)
pub fn vad_config_for(settings: &Settings) -> (c: VadConfig)
    ensures
        c.silence_chunks_to_end == silence_chunks_for(settings.vad_silence_timeout),
        c.silence_chunks_to_end >= 1,
        c.min_speech_chunks == 2,
        c.max_duration_ms == 8000,
{
    let chunks = (settings.vad_silence_timeout / CHUNK_MS) as usize;
    let base = VadConfig::default();
    VadConfig {
        silence_chunks_to_end: if chunks >= 1 {
            chunks
        } else {
            1
        },
        ..base
    }
}

/// Stops the pipeline: the capture's stop signal is taken out of the state
/// and handed back, for the caller to send on it, and the state says that
/// nothing is being listened to. Stopping a stopped pipeline hands back
/// nothing and changes nothing.
pub fn stop_pipeline(state: &mut AppStateInner) -> (stop_tx: Option<Sender<()>>)
    ensures
        stop_tx == old(state).audio_stop_tx,
        final(state).audio_stop_tx is None,
        !final(state).is_listening,
        final(state).status == status_after(PipelineEvent::Ended),
        final(state).current_transcript == old(state).current_transcript,
        final(state).current_answer == old(state).current_answer,
        final(state).settings == old(state).settings,
        final(state).overlay_visible == old(state).overlay_visible,
        final(state).model_path == old(state).model_path,
{
    let tx = state.audio_stop_tx.take();
    state.is_listening = false;
    state.status = AppStatus::Idle;
    tx
}

/// A speech segment is ready and goes to transcription.
pub fn on_segment_ready(state: &mut AppStateInner)
    ensures
        final(state).status == status_after(PipelineEvent::SegmentReady),
        final(state).is_listening == old(state).is_listening,
        final(state).current_transcript == old(state).current_transcript,
        final(state).current_answer == old(state).current_answer,
        final(state).settings == old(state).settings,
        final(state).audio_stop_tx == old(state).audio_stop_tx,
        final(state).overlay_visible == old(state).overlay_visible,
        final(state).model_path == old(state).model_path,
{
    state.status = AppStatus::Transcribing;
}

/// What follows a transcription.
pub enum TranscriptDecision {
    /// Report this error and keep listening.
    Report(String),
    /// Nothing worth answering was heard; keep listening.
    Skip,
    /// Ask the chat model about the transcript.
    Ask { transcript: String, model: String, system_prompt: String },
}

/// Whether a transcript is too short to be a question: its length in bytes of
/// UTF-8 is under five.
pub open spec fn is_noise(transcript: Seq<char>) -> bool {
    vstd::utf8::encode_utf8(transcript).len() < MIN_TRANSCRIPT_BYTES
}

/// Takes the outcome of a transcription. A failure is reported, a transcript
/// that is too short is dropped, and anything else becomes the current
/// transcript and is put to the chosen model with the system prompt.
pub fn on_transcription(state: &mut AppStateInner, r: Result<String, GroqError>) -> (d:
    TranscriptDecision)
    ensures
        final(state).is_listening == old(state).is_listening,
        final(state).settings == old(state).settings,
        final(state).current_answer == old(state).current_answer,
        final(state).audio_stop_tx == old(state).audio_stop_tx,
        final(state).overlay_visible == old(state).overlay_visible,
        final(state).model_path == old(state).model_path,
        (match r {
            Err(e) => {
                &&& final(state).status == status_after(PipelineEvent::NothingToAsk)
                &&& final(state).current_transcript == old(state).current_transcript
                &&& d matches TranscriptDecision::Report(m) && m@ == "Transcription error: "@
                    + groq_error_text(e)
            },
            Ok(t) => if is_noise(t@) {
                &&& final(state).status == status_after(PipelineEvent::NothingToAsk)
                &&& final(state).current_transcript == old(state).current_transcript
                &&& d is Skip
            } else {
                &&& final(state).status == status_after(PipelineEvent::QuestionHeard)
                &&& final(state).current_transcript@ == t@
                &&& d matches TranscriptDecision::Ask { transcript, model, system_prompt }
                    && transcript@ == t@ && model@ == old(state).settings.model@
                    && system_prompt@ == old(state).settings.system_prompt@
            },
        }),
{
    match r {
        Err(e) => {
            state.status = AppStatus::Listening;
            let text = e.message();
            TranscriptDecision::Report(concat2("Transcription error: ", text.as_str()))
        },
        Ok(t) => {
            if t.as_str().as_bytes().len() < MIN_TRANSCRIPT_BYTES {
                state.status = AppStatus::Listening;
                TranscriptDecision::Skip
            } else {
                let model = state.settings.model.clone();
                let system_prompt = state.settings.system_prompt.clone();
                state.current_transcript = t.clone();
                state.status = AppStatus::Thinking;
                TranscriptDecision::Ask { transcript: t, model, system_prompt }
            }
        },
    }
}

/// What follows a chat answer.
pub enum AnswerDecision {
    /// Show this answer to the transcript.
    Ready { transcript: String, answer: String },
    /// Report this error and keep listening.
    Report(String),
}

/// Takes the outcome of asking about `transcript`. An answer becomes the
/// current answer; a failure is reported. Either way listening goes on.
pub fn on_answer(state: &mut AppStateInner, transcript: &str, r: Result<String, GroqError>) -> (d:
    AnswerDecision)
    ensures
        final(state).status == status_after(PipelineEvent::AnswerOutcome),
        final(state).is_listening == old(state).is_listening,
        final(state).settings == old(state).settings,
        final(state).current_transcript == old(state).current_transcript,
        final(state).audio_stop_tx == old(state).audio_stop_tx,
        final(state).overlay_visible == old(state).overlay_visible,
        final(state).model_path == old(state).model_path,
        (match r {
            Ok(a) => {
                &&& final(state).current_answer == a
                &&& d matches AnswerDecision::Ready { transcript: tr, answer }
                    && tr@ == transcript@ && answer@ == a@
            },
            Err(e) => {
                &&& final(state).current_answer == old(state).current_answer
                &&& d matches AnswerDecision::Report(m) && m@ == groq_error_text(e)
            },
        }),
{
    match r {
        Ok(a) => {
            state.current_answer = a.clone();
            state.status = AppStatus::Listening;
            AnswerDecision::Ready { transcript: String::from_str(transcript), answer: a }
        },
        Err(e) => {
            state.status = AppStatus::Listening;
            AnswerDecision::Report(e.message())
        },
    }
}

} // verus!
