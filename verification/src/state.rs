//! The application's shared state: user settings, the listening status, and
//! the state that the commands, hotkeys and the pipeline update.

use vstd::prelude::*;
use crossbeam_channel::Sender;
use crate::pipeline::{PipelineEvent, status_after};
use crate::text::{concat2, str_eq};


verus! {

/// Makes `crossbeam_channel::Sender`, the sending half of a channel, usable
/// in verified signatures and fields; its contents stay opaque.
#[verifier::external_type_specification]
#[verifier::external_body]
#[verifier::reject_recursive_types(T)]
pub struct ExSender<T>(Sender<T>);

/// User settings. The two real-valued settings are held as the bit patterns
/// of their IEEE-754 single-precision values.
#[derive(Clone)]
pub struct Settings {
    /// Selected Groq chat model.
    pub model: String,
    /// Overlay window opacity (0.1 – 1.0), as `f32` bits.
    pub overlay_opacity_bits: u32,
    /// Hotkey that shows or hides the overlay.
    pub hotkey_toggle_overlay: String,
    /// Hotkey that starts or stops listening.
    pub hotkey_toggle_listening: String,
    /// Hotkey that toggles click-through on the overlay.
    pub hotkey_toggle_click_through: String,
    /// Hotkey that captures the screen and asks for a solution.
    pub hotkey_screenshot_solve: String,
    /// Minimum RMS energy that counts as speech (0.001 – 0.1), as `f32` bits.
    pub vad_sensitivity_bits: u32,
    /// Silence, in milliseconds, that ends a speech segment.
    pub vad_silence_timeout: u32,
    /// Whether to start listening when the application starts.
    pub auto_start_listening: bool,
    /// Local whisper model size: "tiny", "base" or "small".
    pub whisper_model: String,
    /// System prompt sent before each transcribed question.
    pub system_prompt: String,
    /// Whether mouse clicks pass through the overlay.
    pub overlay_click_through: bool,
    /// "dark" or "light".
    pub theme: String,
}

/// Bits of the default overlay opacity, 0.88.
pub const DEFAULT_OVERLAY_OPACITY_BITS: u32 = 0x3f61_47ae;

/// Bits of the default speech energy threshold, 0.015.
pub const DEFAULT_VAD_SENSITIVITY_BITS: u32 = 0x3c75_c28f;

pub open spec fn default_system_prompt() -> Seq<char> {
    "You are an expert AI assistant helping someone in a technical interview. Provide concise, accurate, and direct answers. Focus on key points and structure your response clearly. Keep answers under 200 words unless the question requires more depth."@
}

/// Silence timeout used when stored settings do not name one.
pub fn default_silence_timeout() -> (t: u32)
    ensures
        t == 1000,
{
    1000
}

/// Click-through hotkey used when stored settings do not name one.
pub fn default_click_through_hotkey() -> (s: String)
    ensures
        s@ == "CommandOrControl+Alt+Shift+K"@,
{
    String::from_str("CommandOrControl+Alt+Shift+K")
}

/// Screen-solve hotkey used when stored settings do not name one.
pub fn default_screenshot_solve_hotkey() -> (s: String)
    ensures
        s@ == "CommandOrControl+Alt+Shift+S"@,
{
    String::from_str("CommandOrControl+Alt+Shift+S")
}

/// The default settings, field by field.
pub open spec fn is_default_settings(s: Settings) -> bool {
    &&& s.model@ == "llama-3.3-70b-versatile"@
    &&& s.overlay_opacity_bits == DEFAULT_OVERLAY_OPACITY_BITS
    &&& s.hotkey_toggle_overlay@ == "CommandOrControl+Alt+Shift+O"@
    &&& s.hotkey_toggle_listening@ == "CommandOrControl+Alt+Shift+L"@
    &&& s.hotkey_toggle_click_through@ == "CommandOrControl+Alt+Shift+K"@
    &&& s.hotkey_screenshot_solve@ == "CommandOrControl+Alt+Shift+S"@
    &&& s.vad_sensitivity_bits == DEFAULT_VAD_SENSITIVITY_BITS
    &&& s.vad_silence_timeout == 1000
    &&& !s.auto_start_listening
    &&& s.whisper_model@ == "tiny"@
    &&& s.system_prompt@ == default_system_prompt()
    &&& s.overlay_click_through
    &&& s.theme@ == "dark"@
}

impl Default for Settings {
    fn default() -> (s: Self)
        ensures
            is_default_settings(s),
    {
        Settings {
            model: String::from_str("llama-3.3-70b-versatile"),
            overlay_opacity_bits: DEFAULT_OVERLAY_OPACITY_BITS,
            hotkey_toggle_overlay: String::from_str("CommandOrControl+Alt+Shift+O"),
            hotkey_toggle_listening: String::from_str("CommandOrControl+Alt+Shift+L"),
            hotkey_toggle_click_through: default_click_through_hotkey(),
            hotkey_screenshot_solve: default_screenshot_solve_hotkey(),
            vad_sensitivity_bits: DEFAULT_VAD_SENSITIVITY_BITS,
            vad_silence_timeout: default_silence_timeout(),
            auto_start_listening: false,
            whisper_model: String::from_str("tiny"),
            system_prompt: String::from_str(
                "You are an expert AI assistant helping someone in a technical interview. Provide concise, accurate, and direct answers. Focus on key points and structure your response clearly. Keep answers under 200 words unless the question requires more depth.",
            ),
            overlay_click_through: true,
            theme: String::from_str("dark"),
        }
    }
}

/// Bits of 0.1, the least overlay opacity.
pub const MIN_OVERLAY_OPACITY_BITS: u32 = 0x3dcc_cccd;

/// Bits of 1.0, the greatest overlay opacity.
pub const MAX_OVERLAY_OPACITY_BITS: u32 = 0x3f80_0000;

/// Bits of 0.001, the least speech energy threshold.
pub const MIN_VAD_SENSITIVITY_BITS: u32 = 0x3a83_126f;

/// Bits of 0.1, the greatest speech energy threshold.
pub const MAX_VAD_SENSITIVITY_BITS: u32 = 0x3dcc_cccd;

/// The whisper model sizes that can be chosen.
pub open spec fn is_whisper_model_name(name: Seq<char>) -> bool {
    name == "tiny"@ || name == "base"@ || name == "small"@
}

/// What is wrong with settings about to be saved, the first problem found,
/// or nothing. For a non-negative single-precision value (sign bit clear) the
/// order of the bit patterns, read as unsigned integers, is the order of the
/// values, while negative values and NaNs have patterns above those of 1.0;
/// so a range of bit patterns is exactly the range of values between its
/// ends.
pub open spec fn settings_problem_spec(s: Settings) -> Option<Seq<char>> {
    if !is_whisper_model_name(s.whisper_model@) {
        Some("Unknown whisper model: "@ + s.whisper_model@)
    } else if !(MIN_OVERLAY_OPACITY_BITS <= s.overlay_opacity_bits <= MAX_OVERLAY_OPACITY_BITS) {
        Some("Overlay opacity must be between 0.1 and 1.0"@)
    } else if !(MIN_VAD_SENSITIVITY_BITS <= s.vad_sensitivity_bits <= MAX_VAD_SENSITIVITY_BITS) {
        Some("Speech sensitivity must be between 0.001 and 0.1"@)
    } else {
        None
    }
}

/// The default settings pass the checks made before settings are saved.
pub proof fn lemma_default_settings_pass_the_checks(s: Settings)
    requires
        is_default_settings(s),
    ensures
        settings_problem_spec(s) is None,
{
}

/// Checks settings before they are saved: the whisper model is one of the
/// known sizes, and the opacity and the speech energy threshold lie in their
/// documented ranges. Returns the message for the first problem, if any.
pub fn settings_problem(s: &Settings) -> (r: Option<String>)
    ensures
        match r {
            Some(m) => settings_problem_spec(*s) == Some(m@),
            None => settings_problem_spec(*s) is None,
        },
{
    let name = s.whisper_model.as_str();
    if !(str_eq(name, "tiny") || str_eq(name, "base") || str_eq(name, "small")) {
        Some(concat2("Unknown whisper model: ", name))
    } else if !(MIN_OVERLAY_OPACITY_BITS <= s.overlay_opacity_bits
        && s.overlay_opacity_bits <= MAX_OVERLAY_OPACITY_BITS) {
        Some(String::from_str("Overlay opacity must be between 0.1 and 1.0"))
    } else if !(MIN_VAD_SENSITIVITY_BITS <= s.vad_sensitivity_bits
        && s.vad_sensitivity_bits <= MAX_VAD_SENSITIVITY_BITS) {
        Some(String::from_str("Speech sensitivity must be between 0.001 and 0.1"))
    } else {
        None
    }
}

/// What the application is doing.
pub enum AppStatus {
    Idle,
    Listening,
    Transcribing,
    Thinking,
    Error(String),
}

/// The state shared by commands, hotkeys and the pipeline.
pub struct AppStateInner {
    pub status: AppStatus,
    pub is_listening: bool,
    pub current_transcript: String,
    pub current_answer: String,
    pub settings: Settings,
    /// Signals the capture thread to stop.
    pub audio_stop_tx: Option<Sender<()>>,
    /// Whether the overlay is visible.
    pub overlay_visible: bool,
    /// Path of the whisper model file.
    pub model_path: Option<String>,
}

impl Default for AppStateInner {
    fn default() -> (s: Self)
        ensures
            s.status is Idle,
            !s.is_listening,
            s.current_transcript@ == Seq::<char>::empty(),
            s.current_answer@ == Seq::<char>::empty(),
            is_default_settings(s.settings),
            s.audio_stop_tx is None,
            !s.overlay_visible,
            s.model_path is None,
    {
        AppStateInner {
            status: AppStatus::Idle,
            is_listening: false,
            current_transcript: String::new(),
            current_answer: String::new(),
            settings: Settings::default(),
            audio_stop_tx: None,
            overlay_visible: false,
            model_path: None,
        }
    }
}

/// Overlay visibility after a toggle: the requested value, or the opposite
/// of the current one when none is requested.
pub open spec fn toggled_visibility(requested: Option<bool>, current: bool) -> bool {
    match requested {
        Some(v) => v,
        None => !current,
    }
}

/// The transcript shown for an answer obtained from a screen capture.
pub open spec fn visual_solve_label() -> Seq<char> {
    "[Visual Solve]"@
}

impl AppStateInner {
    /// Records that listening has started: the stop signal of the new capture
    /// is kept, the status is `Listening`, and the previous transcript and
    /// answer are cleared.
    pub fn begin_listening(&mut self, stop_tx: Sender<()>)
        ensures
            final(self).audio_stop_tx == Some(stop_tx),
            final(self).is_listening,
            final(self).status == status_after(PipelineEvent::Started),
            final(self).current_transcript@ == Seq::<char>::empty(),
            final(self).current_answer@ == Seq::<char>::empty(),
            final(self).settings == old(self).settings,
            final(self).overlay_visible == old(self).overlay_visible,
            final(self).model_path == old(self).model_path,
    {
        self.audio_stop_tx = Some(stop_tx);
        self.is_listening = true;
        self.status = AppStatus::Listening;
        self.current_transcript = String::new();
        self.current_answer = String::new();
    }

    /// Records that the pipeline has ended: not listening, status `Idle`.
    pub fn set_stopped(&mut self)
        ensures
            !final(self).is_listening,
            final(self).status == status_after(PipelineEvent::Ended),
            final(self).audio_stop_tx == old(self).audio_stop_tx,
            final(self).current_transcript == old(self).current_transcript,
            final(self).current_answer == old(self).current_answer,
            final(self).settings == old(self).settings,
            final(self).overlay_visible == old(self).overlay_visible,
            final(self).model_path == old(self).model_path,
    {
        self.is_listening = false;
        self.status = AppStatus::Idle;
    }

    /// Shows or hides the overlay: `visible` when given, else the opposite of
    /// the current visibility. Returns the new visibility.
    pub fn toggle_overlay(&mut self, visible: Option<bool>) -> (v: bool)
        ensures
            v == toggled_visibility(visible, old(self).overlay_visible),
            final(self).overlay_visible == v,
            final(self).is_listening == old(self).is_listening,
            final(self).status == old(self).status,
            final(self).settings == old(self).settings,
            final(self).audio_stop_tx == old(self).audio_stop_tx,
            final(self).current_transcript == old(self).current_transcript,
            final(self).current_answer == old(self).current_answer,
            final(self).model_path == old(self).model_path,
    {
        let next = match visible {
            Some(v) => v,
            None => !self.overlay_visible,
        };
        self.overlay_visible = next;
        next
    }

    /// Flips the overlay's click-through setting; returns the new value.
    pub fn toggle_click_through(&mut self) -> (v: bool)
        ensures
            v == !old(self).settings.overlay_click_through,
            final(self).settings == (Settings {
                overlay_click_through: v,
                ..old(self).settings
            }),
            final(self).overlay_visible == old(self).overlay_visible,
            final(self).is_listening == old(self).is_listening,
            final(self).status == old(self).status,
            final(self).current_transcript == old(self).current_transcript,
            final(self).current_answer == old(self).current_answer,
            final(self).audio_stop_tx == old(self).audio_stop_tx,
            final(self).model_path == old(self).model_path,
    {
        self.settings.overlay_click_through = !self.settings.overlay_click_through;
        self.settings.overlay_click_through
    }

    /// Records an answer obtained from a screen capture.
    pub fn record_visual_answer(&mut self, answer: String)
        ensures
            final(self).current_transcript@ == visual_solve_label(),
            final(self).current_answer == answer,
            final(self).is_listening == old(self).is_listening,
            final(self).status == old(self).status,
            final(self).settings == old(self).settings,
            final(self).overlay_visible == old(self).overlay_visible,
            final(self).audio_stop_tx == old(self).audio_stop_tx,
            final(self).model_path == old(self).model_path,
    {
        self.current_transcript = String::from_str("[Visual Solve]");
        self.current_answer = answer;
    }
}

/// Toggling the overlay twice without a requested value restores its visibility.
pub proof fn lemma_overlay_toggle_twice(current: bool)
    ensures
        toggled_visibility(None, toggled_visibility(None, current)) == current,
{
}

/// Requesting a visibility is idempotent: asking twice is asking once.
pub proof fn lemma_overlay_request_idempotent(requested: bool, current: bool)
    ensures
        toggled_visibility(Some(requested), toggled_visibility(Some(requested), current))
            == toggled_visibility(Some(requested), current),
{
}

} // verus!
