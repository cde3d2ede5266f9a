//! Requests to the Groq API and the interpretation of its replies: chat
//! completions for answers, vision completions for screen captures, and
//! speech transcription. The HTTP transport itself is the caller's.

use vstd::prelude::*;
use base64::Engine;
use crate::text::{concat2, concat3, decimal, decimal_string, trim, trimmed};
use crate::wav::{encode_wav, wav_bytes};

verus! {

/// Chat-completions endpoint.
pub const GROQ_API_URL: &'static str = "https://api.groq.com/openai/v1/chat/completions";

/// Audio-transcription endpoint.
pub const GROQ_WHISPER_URL: &'static str = "https://api.groq.com/openai/v1/audio/transcriptions";

/// One message of a chat conversation.
pub struct Message {
    pub role: String,
    pub content: String,
}

/// Body of a chat-completion request. The sampling temperature is given in
/// tenths.
pub struct ChatRequest {
    pub model: String,
    pub messages: Vec<Message>,
    pub max_tokens: u32,
    pub temperature_tenths: u32,
    pub stream: bool,
}

/// Body of a vision request: one user message made of a text part and an
/// image part given as a data URL.
pub struct VisionRequest {
    pub model: String,
    pub prompt: String,
    pub image_url: String,
    pub max_tokens: u32,
    pub temperature_tenths: u32,
}

/// A multipart transcription request: the WAV file and the form fields.
pub struct TranscriptionRequest {
    pub wav: Vec<u8>,
    pub file_name: String,
    pub mime: String,
    pub model: String,
    pub language: String,
    pub response_format: String,
}

/// Reply of the chat-completions endpoint.
pub struct ChatResponse {
    pub choices: Vec<Choice>,
}

pub struct Choice {
    pub message: ResponseMessage,
}

pub struct ResponseMessage {
    pub content: String,
}

/// Reply of the transcription endpoint.
pub struct WhisperResponse {
    pub text: String,
}

/// Failures of a Groq API call.
pub enum GroqError {
    InvalidApiKey,
    RateLimited,
    ModelNotFound(String),
    /// A transport failure, with its description.
    Network(String),
    Api { status: u16, message: String },
}

/// The user-facing description of an error.
pub open spec fn groq_error_text(e: GroqError) -> Seq<char> {
    match e {
        GroqError::InvalidApiKey => "Invalid API key — check your Groq API key in Settings"@,
        GroqError::RateLimited => "Rate limit exceeded — please wait a moment before trying again"@,
        GroqError::ModelNotFound(m) => "Model not available: "@ + m@,
        GroqError::Network(d) => "Network error: "@ + d@,
        GroqError::Api { status, message } => "API error ("@ + decimal(status as nat) + "): "@
            + message@,
    }
}

impl GroqError {
    /// The user-facing description of this error.
    pub fn message(&self) -> (s: String)
        ensures
            s@ == groq_error_text(*self),
    {
        match self {
            GroqError::InvalidApiKey => String::from_str(
                "Invalid API key — check your Groq API key in Settings",
            ),
            GroqError::RateLimited => String::from_str(
                "Rate limit exceeded — please wait a moment before trying again",
            ),
            GroqError::ModelNotFound(m) => concat2("Model not available: ", m.as_str()),
            GroqError::Network(d) => concat2("Network error: ", d.as_str()),
            GroqError::Api { status, message } => {
                let digits = decimal_string(*status as u64);
                let mut s = concat3("API error (", digits.as_str(), "): ");
                s.append(message.as_str());
                s
            },
        }
    }
}

/// What to do with a reply, judged by its HTTP status.
pub enum StatusVerdict {
    /// A success status: read the reply body.
    Success,
    /// The call failed with this error.
    Failed(GroqError),
    /// Another failure status: read the body as the error message.
    ReadBodyAsError,
}

/// How a reply status is judged: 401 is a rejected key, 429 a rate limit,
/// 404 a missing model where the call names one, any other status outside
/// 200..=299 an API error whose message is the body.
pub open spec fn status_verdict_spec(status: u16, model: Option<Seq<char>>) -> StatusVerdictKind {
    if status == 401 {
        StatusVerdictKind::InvalidApiKey
    } else if status == 429 {
        StatusVerdictKind::RateLimited
    } else if status == 404 && model is Some {
        StatusVerdictKind::ModelNotFound(model->0)
    } else if 200 <= status <= 299 {
        StatusVerdictKind::Success
    } else {
        StatusVerdictKind::ReadBodyAsError
    }
}

/// The verdicts as mathematical values.
pub enum StatusVerdictKind {
    Success,
    InvalidApiKey,
    RateLimited,
    ModelNotFound(Seq<char>),
    ReadBodyAsError,
}

pub open spec fn verdict_kind(v: StatusVerdict) -> StatusVerdictKind {
    match v {
        StatusVerdict::Success => StatusVerdictKind::Success,
        StatusVerdict::ReadBodyAsError => StatusVerdictKind::ReadBodyAsError,
        StatusVerdict::Failed(GroqError::InvalidApiKey) => StatusVerdictKind::InvalidApiKey,
        StatusVerdict::Failed(GroqError::RateLimited) => StatusVerdictKind::RateLimited,
        StatusVerdict::Failed(GroqError::ModelNotFound(m)) => StatusVerdictKind::ModelNotFound(m@),
        // no status is judged as these
        StatusVerdict::Failed(_) => StatusVerdictKind::ReadBodyAsError,
    }
}

/// How each status is judged, whatever model the call names: 401 is always a
/// rejected key and 429 always a rate limit; a missing model is reported
/// only for 404, and then for the very model that the call named; success
/// is exactly a 2xx status; every other status is read as an API error.
pub proof fn lemma_status_verdicts(status: u16, model: Option<Seq<char>>)
    ensures
        status == 401 ==> status_verdict_spec(status, model) == StatusVerdictKind::InvalidApiKey,
        status == 429 ==> status_verdict_spec(status, model) == StatusVerdictKind::RateLimited,
        status_verdict_spec(status, model) is InvalidApiKey ==> status == 401,
        status_verdict_spec(status, model) is RateLimited ==> status == 429,
        status_verdict_spec(status, model) is ModelNotFound ==> status == 404 && model
            == Some(status_verdict_spec(status, model)->ModelNotFound_0),
        (status == 404 && model is Some) ==> status_verdict_spec(status, model)
            == StatusVerdictKind::ModelNotFound(model->0),
        status_verdict_spec(status, model) is Success <==> 200 <= status <= 299,
        status_verdict_spec(status, model) is ReadBodyAsError <==> (status != 401 && status != 429
            && !(status == 404 && model is Some) && !(200 <= status <= 299)),
{
}

/// Judges a reply status. `model` is the model that the request named, for
/// the calls on which 404 means that the model is not available.
pub fn classify_status(status: u16, model: Option<&str>) -> (v: StatusVerdict)
    ensures
        verdict_kind(v) == status_verdict_spec(
            status,
            match model {
                Some(m) => Some(m@),
                None => None,
            },
        ),
        v matches StatusVerdict::Failed(e) ==> (e is InvalidApiKey || e is RateLimited
            || e is ModelNotFound),
{
    if status == 401 {
        StatusVerdict::Failed(GroqError::InvalidApiKey)
    } else if status == 429 {
        StatusVerdict::Failed(GroqError::RateLimited)
    } else if status == 404 && model.is_some() {
        let m = model.unwrap();
        StatusVerdict::Failed(GroqError::ModelNotFound(String::from_str(m)))
    } else if 200 <= status && status <= 299 {
        StatusVerdict::Success
    } else {
        StatusVerdict::ReadBodyAsError
    }
}

/// The answer in a chat reply: the content of its first choice, or the empty
/// text when there is no choice.
pub fn answer_from_response(resp: ChatResponse) -> (answer: String)
    ensures
        resp.choices@.len() > 0 ==> answer@ == resp.choices@[0].message.content@,
        resp.choices@.len() == 0 ==> answer@ == Seq::<char>::empty(),
{
    let mut choices = resp.choices;
    if choices.len() == 0 {
        String::new()
    } else {
        let first = choices.remove(0);
        first.message.content
    }
}

/// The transcript in a transcription reply, without surrounding whitespace.
pub fn transcript_from_response(resp: &WhisperResponse) -> (text: String)
    ensures
        text@ == trimmed(resp.text@),
{
    trim(resp.text.as_str())
}

/// Client credentials for the Groq API.
pub struct GroqClient {
    api_key: String,
}

impl GroqClient {
    pub closed spec fn key(&self) -> Seq<char> {
        self.api_key@
    }

    pub fn new(api_key: String) -> (c: Self)
        ensures
            c.key() == api_key@,
    {
        GroqClient { api_key }
    }

    /// The value of the `Authorization` header: the key as a bearer token.
    pub fn authorization(&self) -> (h: String)
        ensures
            h@ == "Bearer "@ + self.key(),
    {
        concat2("Bearer ", self.api_key.as_str())
    }
}

/// The chat request that asks `model` to answer `question`, after the
/// system prompt: at most 512 tokens, temperature 0.7, no streaming.
pub fn chat_request(question: &str, model: &str, system_prompt: &str) -> (r: ChatRequest)
    ensures
        r.model@ == model@,
        r.messages@.len() == 2,
        r.messages@[0].role@ == "system"@,
        r.messages@[0].content@ == system_prompt@,
        r.messages@[1].role@ == "user"@,
        r.messages@[1].content@ == question@,
        r.max_tokens == 512,
        r.temperature_tenths == 7,
        !r.stream,
{
    let mut messages: Vec<Message> = Vec::new();
    messages.push(
        Message { role: String::from_str("system"), content: String::from_str(system_prompt) },
    );
    messages.push(Message { role: String::from_str("user"), content: String::from_str(question) });
    ChatRequest {
        model: String::from_str(model),
        messages,
        max_tokens: 512,
        temperature_tenths: 7,
        stream: false,
    }
}

/// The question, model and system prompt of the request that tests a key.
pub fn test_connection_request() -> (r: ChatRequest)
    ensures
        r.model@ == "llama-3.1-8b-instant"@,
        r.messages@.len() == 2,
        r.messages@[0].role@ == "system"@,
        r.messages@[0].content@ == "You are a test assistant."@,
        r.messages@[1].role@ == "user"@,
        r.messages@[1].content@ == "Say 'OK' in one word."@,
        r.max_tokens == 512,
        r.temperature_tenths == 7,
        !r.stream,
{
    chat_request("Say 'OK' in one word.", "llama-3.1-8b-instant", "You are a test assistant.")
}

/// What a key test reports: a completed call means the key works, a
/// rejected key means it does not, any other failure is passed on.
pub fn test_connection_outcome(r: Result<String, GroqError>) -> (out: Result<bool, GroqError>)
    ensures
        (match r {
            Ok(_) => out == Ok::<bool, GroqError>(true),
            Err(GroqError::InvalidApiKey) => out == Ok::<bool, GroqError>(false),
            Err(e) => out == Err::<bool, GroqError>(e),
        }),
{
    match r {
        Ok(_) => Ok(true),
        Err(GroqError::InvalidApiKey) => Ok(false),
        Err(e) => Err(e),
    }
}

/// The standard base64 alphabet: `A`–`Z`, `a`–`z`, `0`–`9`, `+`, `/`.
pub open spec fn base64_alphabet() -> Seq<char> {
    "ABCDEFGHIJKLMNOPQRSTUVWXYZabcdefghijklmnopqrstuvwxyz0123456789+/"@
}

/// The character of the standard base64 alphabet for a six-bit value.
pub open spec fn base64_digit(v: int) -> char {
    base64_alphabet()[v]
}

/// Standard base64 with padding (RFC 4648, section 4): each group of three
/// bytes becomes four characters; a last group of one or two bytes is padded
/// with `=` to four characters.
pub open spec fn base64_standard(b: Seq<u8>) -> Seq<char>
    decreases b.len(),
{
    if b.len() == 0 {
        Seq::empty()
    } else if b.len() == 1 {
        seq![base64_digit((b[0] as int) / 4), base64_digit(((b[0] as int) % 4) * 16), '=', '=']
    } else if b.len() == 2 {
        seq![
            base64_digit((b[0] as int) / 4),
            base64_digit(((b[0] as int) % 4) * 16 + (b[1] as int) / 16),
            base64_digit(((b[1] as int) % 16) * 4),
            '=',
        ]
    } else {
        seq![
            base64_digit((b[0] as int) / 4),
            base64_digit(((b[0] as int) % 4) * 16 + (b[1] as int) / 16),
            base64_digit(((b[1] as int) % 16) * 4 + (b[2] as int) / 64),
            base64_digit((b[2] as int) % 64),
        ] + base64_standard(b.skip(3))
    }
}

/// Calls `base64::Engine::encode` on the `STANDARD` engine. Claimed: the
/// result is the padded standard encoding of the input (RFC 4648, which the
/// engine's alphabet and padding configuration implement), so four
/// characters for every three input bytes or part thereof. The call panics
/// only where that length would overflow `usize`, which `requires` leaves out.
#[verifier::external_body]
fn base64_encode(bytes: &[u8]) -> (s: String)
    requires
        4 * ((bytes@.len() + 2) / 3) <= usize::MAX,
    ensures
        s@ == base64_standard(bytes@),
        s@.len() == 4 * ((bytes@.len() + 2) / 3),
{
    base64::prelude::BASE64_STANDARD.encode(bytes)
}

/// The instruction that goes with a screen capture.
pub open spec fn vision_prompt() -> Seq<char> {
    "Solve the problem or answer the question visible on this screen. Be direct and concise. Limit your answer to under 200 words."@
}

/// The vision request for a JPEG screen capture: the capture is sent as a
/// base64 data URL to the Llama 4 Scout model, with at most 1024 tokens and
/// temperature 0.2.
pub fn vision_request(jpeg: &[u8]) -> (r: VisionRequest)
    requires
        4 * ((jpeg@.len() + 2) / 3) <= usize::MAX,
    ensures
        r.model@ == "meta-llama/llama-4-scout-17b-16e-instruct"@,
        r.prompt@ == vision_prompt(),
        r.image_url@ == "data:image/jpeg;base64,"@ + base64_standard(jpeg@),
        r.max_tokens == 1024,
        r.temperature_tenths == 2,
{
    let encoded = base64_encode(jpeg);
    VisionRequest {
        model: String::from_str("meta-llama/llama-4-scout-17b-16e-instruct"),
        prompt: String::from_str(
            "Solve the problem or answer the question visible on this screen. Be direct and concise. Limit your answer to under 200 words.",
        ),
        image_url: concat2("data:image/jpeg;base64,", encoded.as_str()),
        max_tokens: 1024,
        temperature_tenths: 2,
    }
}

/// The transcription request for mono 16 kHz samples: a WAV file named
/// `audio.wav`, for the `whisper-large-v3-turbo` model, English, JSON reply.
pub fn transcription_request(samples: &[i16]) -> (r: TranscriptionRequest)
    requires
        samples@.len() * 2 + 44 <= usize::MAX,
    ensures
        r.wav@ == wav_bytes(samples@),
        r.file_name@ == "audio.wav"@,
        r.mime@ == "audio/wav"@,
        r.model@ == "whisper-large-v3-turbo"@,
        r.language@ == "en"@,
        r.response_format@ == "json"@,
{
    TranscriptionRequest {
        wav: encode_wav(samples),
        file_name: String::from_str("audio.wav"),
        mime: String::from_str("audio/wav"),
        model: String::from_str("whisper-large-v3-turbo"),
        language: String::from_str("en"),
        response_format: String::from_str("json"),
    }
}

/// A selectable chat model.
pub struct ModelInfo {
    pub id: String,
    pub name: String,
    pub context_window: u32,
}

/// The catalogue of selectable models: id, display name, context window.
pub open spec fn model_catalog() -> Seq<(Seq<char>, Seq<char>, u32)> {
    seq![
        ("llama-3.3-70b-versatile"@, "Llama 3.3 70B (Best Quality)"@, 128000u32),
        ("llama-3.1-8b-instant"@, "Llama 3.1 8B (Fastest)"@, 128000u32),
        ("llama3-70b-8192"@, "Llama 3 70B"@, 8192u32),
        ("mixtral-8x7b-32768"@, "Mixtral 8x7B"@, 32768u32),
        ("gemma2-9b-it"@, "Gemma 2 9B"@, 8192u32),
    ]
}

fn model_info(id: &str, name: &str, context_window: u32) -> (m: ModelInfo)
    ensures
        m.id@ == id@,
        m.name@ == name@,
        m.context_window == context_window,
{
    ModelInfo { id: String::from_str(id), name: String::from_str(name), context_window }
}

/// The models that can be chosen in the settings, in display order.
pub fn available_models() -> (v: Vec<ModelInfo>)
    ensures
        v@.len() == model_catalog().len(),
        forall|i: int|
            0 <= i < v@.len() ==> (#[trigger] v@[i].id@, v@[i].name@, v@[i].context_window)
                == model_catalog()[i],
{
    let mut v: Vec<ModelInfo> = Vec::new();
    v.push(model_info("llama-3.3-70b-versatile", "Llama 3.3 70B (Best Quality)", 128000));
    v.push(model_info("llama-3.1-8b-instant", "Llama 3.1 8B (Fastest)", 128000));
    v.push(model_info("llama3-70b-8192", "Llama 3 70B", 8192));
    v.push(model_info("mixtral-8x7b-32768", "Mixtral 8x7B", 32768));
    v.push(model_info("gemma2-9b-it", "Gemma 2 9B", 8192));
    v
}

/// Both Groq endpoints are on the Groq API host, over HTTPS.
pub proof fn lemma_groq_endpoints_on_groq_host()
    ensures
        GROQ_API_URL@.take(21) == "https://api.groq.com/"@,
        GROQ_WHISPER_URL@.take(21) == "https://api.groq.com/"@,
{
    reveal_strlit("https://api.groq.com/openai/v1/chat/completions");
    reveal_strlit("https://api.groq.com/openai/v1/audio/transcriptions");
    reveal_strlit("https://api.groq.com/");
    assert(GROQ_API_URL@.take(21) =~= "https://api.groq.com/"@);
    assert(GROQ_WHISPER_URL@.take(21) =~= "https://api.groq.com/"@);
}

} // verus!
