use aether_echo::groq::{
    answer_from_response, available_models, chat_request, classify_status, test_connection_outcome,
    test_connection_request, transcript_from_response, transcription_request, vision_request,
    ChatResponse, Choice, GroqClient, GroqError, ResponseMessage, StatusVerdict, WhisperResponse,
    GROQ_API_URL, GROQ_WHISPER_URL,
};

#[test]
fn endpoints() {
    assert_eq!(GROQ_API_URL, "https://api.groq.com/openai/v1/chat/completions");
    assert_eq!(GROQ_WHISPER_URL, "https://api.groq.com/openai/v1/audio/transcriptions");
}

#[test]
fn error_messages() {
    assert_eq!(
        GroqError::InvalidApiKey.message(),
        "Invalid API key — check your Groq API key in Settings"
    );
    assert_eq!(
        GroqError::RateLimited.message(),
        "Rate limit exceeded — please wait a moment before trying again"
    );
    assert_eq!(GroqError::ModelNotFound("m1".to_string()).message(), "Model not available: m1");
    assert_eq!(GroqError::Network("timed out".to_string()).message(), "Network error: timed out");
    assert_eq!(
        GroqError::Api { status: 503, message: "busy".to_string() }.message(),
        "API error (503): busy"
    );
    assert_eq!(
        GroqError::Api { status: 0, message: String::new() }.message(),
        "API error (0): "
    );
}

#[test]
fn status_classification() {
    assert!(matches!(classify_status(200, Some("m")), StatusVerdict::Success));
    assert!(matches!(classify_status(204, None), StatusVerdict::Success));
    assert!(matches!(classify_status(299, None), StatusVerdict::Success));
    assert!(matches!(classify_status(300, None), StatusVerdict::ReadBodyAsError));
    assert!(matches!(classify_status(199, None), StatusVerdict::ReadBodyAsError));
    assert!(matches!(classify_status(500, Some("m")), StatusVerdict::ReadBodyAsError));
    assert!(matches!(classify_status(401, None), StatusVerdict::Failed(GroqError::InvalidApiKey)));
    assert!(matches!(classify_status(429, Some("m")), StatusVerdict::Failed(GroqError::RateLimited)));
    match classify_status(404, Some("gemma2-9b-it")) {
        StatusVerdict::Failed(GroqError::ModelNotFound(m)) => assert_eq!(m, "gemma2-9b-it"),
        _ => panic!("expected a missing model"),
    }
    assert!(matches!(classify_status(404, None), StatusVerdict::ReadBodyAsError));
}

#[test]
fn answer_is_first_choice_or_empty() {
    let resp = ChatResponse {
        choices: vec![
            Choice { message: ResponseMessage { content: "first".to_string() } },
            Choice { message: ResponseMessage { content: "second".to_string() } },
        ],
    };
    assert_eq!(answer_from_response(resp), "first");
    assert_eq!(answer_from_response(ChatResponse { choices: vec![] }), "");
}

#[test]
fn transcript_is_trimmed() {
    let resp = WhisperResponse { text: "  What is a mutex?\n".to_string() };
    assert_eq!(transcript_from_response(&resp), "What is a mutex?");
}

#[test]
fn chat_request_fields() {
    let r = chat_request("Why?", "llama-3.1-8b-instant", "Be brief.");
    assert_eq!(r.model, "llama-3.1-8b-instant");
    assert_eq!(r.messages.len(), 2);
    assert_eq!(r.messages[0].role, "system");
    assert_eq!(r.messages[0].content, "Be brief.");
    assert_eq!(r.messages[1].role, "user");
    assert_eq!(r.messages[1].content, "Why?");
    assert_eq!(r.max_tokens, 512);
    assert_eq!(r.temperature_tenths, 7);
    assert!(!r.stream);
}

#[test]
fn key_test_request_and_outcome() {
    let r = test_connection_request();
    assert_eq!(r.model, "llama-3.1-8b-instant");
    assert_eq!(r.messages[0].content, "You are a test assistant.");
    assert_eq!(r.messages[1].content, "Say 'OK' in one word.");
    assert_eq!(r.messages[0].role, "system");
    assert_eq!(r.messages[1].role, "user");
    assert_eq!(r.max_tokens, 512);
    assert_eq!(r.temperature_tenths, 7);
    assert!(!r.stream);
    assert!(matches!(test_connection_outcome(Ok("OK".to_string())), Ok(true)));
    assert!(matches!(test_connection_outcome(Err(GroqError::InvalidApiKey)), Ok(false)));
    assert!(matches!(
        test_connection_outcome(Err(GroqError::RateLimited)),
        Err(GroqError::RateLimited)
    ));
}

#[test]
fn authorization_header() {
    let c = GroqClient::new("gsk_abc".to_string());
    assert_eq!(c.authorization(), "Bearer gsk_abc");
}

#[test]
fn vision_request_embeds_base64_capture() {
    let r = vision_request(b"abc");
    assert_eq!(r.image_url, "data:image/jpeg;base64,YWJj");
    let r2 = vision_request(&[0xff, 0xd8, 0xff, 0xe0]);
    assert_eq!(r2.image_url, "data:image/jpeg;base64,/9j/4A==");
    assert_eq!(r.model, "meta-llama/llama-4-scout-17b-16e-instruct");
    assert_eq!(r.max_tokens, 1024);
    assert_eq!(r.temperature_tenths, 2);
    assert!(r.prompt.starts_with("Solve the problem"));
}

#[test]
fn transcription_request_fields() {
    let r = transcription_request(&[1, -1]);
    assert_eq!(r.wav.len(), 48);
    assert_eq!(&r.wav[44..], &[1u8, 0, 0xff, 0xff]);
    assert_eq!(r.file_name, "audio.wav");
    assert_eq!(r.mime, "audio/wav");
    assert_eq!(r.model, "whisper-large-v3-turbo");
    assert_eq!(r.language, "en");
    assert_eq!(r.response_format, "json");
}

#[test]
fn model_catalogue() {
    let models = available_models();
    let ids: Vec<&str> = models.iter().map(|m| m.id.as_str()).collect();
    assert_eq!(
        ids,
        vec![
            "llama-3.3-70b-versatile",
            "llama-3.1-8b-instant",
            "llama3-70b-8192",
            "mixtral-8x7b-32768",
            "gemma2-9b-it"
        ]
    );
    assert_eq!(models[0].name, "Llama 3.3 70B (Best Quality)");
    assert_eq!(models[2].context_window, 8192);
    assert_eq!(models[3].context_window, 32768);
}
