use assistant::chat::{after_chat_send, authorization, chat_request, completion_content, ChatStep};
use assistant::error::ClientError;
use assistant::http::{check_status, is_success, required_text, SendOutcome};
use assistant::message::{with_persona, Message, PERSONA_PROMPT};
use assistant::progress::{stage_update, ProcessingStage};
use assistant::retry::{after_transport_failure, RetryDecision, MAX_ATTEMPTS};
use assistant::synthesis::{after_synthesis, select_voice, speech_request};
use assistant::transcription::{after_transcription, TranscribeOutcome};

fn msg(role: &str, content: &str, source: Option<&str>) -> Message {
    Message {
        role: role.to_string(),
        content: content.to_string(),
        source: source.map(|s| s.to_string()),
    }
}

fn responded(status: u16, body: &str) -> SendOutcome {
    SendOutcome::Responded { status, body: body.as_bytes().to_vec() }
}

fn failed(detail: &str) -> SendOutcome {
    SendOutcome::TransportFailed { detail: detail.to_string() }
}

#[test]
fn persona_is_prepended_once_and_order_kept() {
    let input = vec![msg("user", "hi", Some("voice")), msg("assistant", "yo", None), msg("user", "again", Some("text"))];
    let out = with_persona(&input);
    assert_eq!(out.len(), 4);
    assert_eq!(out[0].role, "system");
    assert_eq!(out[0].content, PERSONA_PROMPT);
    assert!(out[0].source.is_none());
    for i in 0..3 {
        assert_eq!(out[i + 1].role, input[i].role);
        assert_eq!(out[i + 1].content, input[i].content);
        assert_eq!(out[i + 1].source, input[i].source);
    }
    assert_eq!(out.iter().filter(|m| m.role == "system").count(), 1);
}

#[test]
fn empty_conversation_sends_only_the_persona() {
    let req = chat_request(&Vec::new());
    assert_eq!(req.model, "grok-3-mini-beta");
    assert_eq!(req.messages.len(), 1);
    assert_eq!(req.messages[0].role, "system");
}

#[test]
fn retries_stop_after_three_attempts_with_doubling_pauses() {
    assert!(matches!(after_transport_failure(1), RetryDecision::RetryAfter { delay_secs: 2 }));
    assert!(matches!(after_transport_failure(2), RetryDecision::RetryAfter { delay_secs: 4 }));
    assert!(matches!(after_transport_failure(3), RetryDecision::GiveUp));
    assert_eq!(MAX_ATTEMPTS, 3);
}

#[test]
fn chat_against_always_failing_transport() {
    let mut attempts: u32 = 0;
    let mut pauses = Vec::new();
    let result = loop {
        attempts += 1;
        match after_chat_send(attempts, failed("connection refused")) {
            ChatStep::RetryAfter { delay_secs } => pauses.push(delay_secs),
            ChatStep::Finished { result } => break result,
        }
    };
    assert_eq!(attempts, 3);
    assert_eq!(pauses, vec![2, 4]);
    match result {
        Err(ClientError::Transport { attempts, detail }) => {
            assert_eq!(attempts, 3);
            assert_eq!(detail, "connection refused");
        }
        _ => panic!("expected a transport error"),
    }
}

#[test]
fn chat_extracts_first_choice_content() {
    let body = r#"{"choices":[{"message":{"content":"xin chao"}},{"message":{"content":"no"}}]}"#;
    match after_chat_send(1, responded(200, body)) {
        ChatStep::Finished { result: Ok(text) } => assert_eq!(text, "xin chao"),
        _ => panic!("expected content"),
    }
    assert_eq!(completion_content(&body.as_bytes().to_vec()), Ok(Some("xin chao".to_string())));
}

#[test]
fn chat_missing_content_is_a_parse_error() {
    for body in [r#"{"choices":[]}"#, r#"{"choices":[{"message":{}}]}"#, r#"{"choices":[{"message":{"content":7}}]}"#, "{}"] {
        match after_chat_send(1, responded(200, body)) {
            ChatStep::Finished { result: Err(ClientError::Parse { detail }) } => {
                assert_eq!(detail, "Content field not found in response")
            }
            _ => panic!("expected a parse error"),
        }
    }
}

#[test]
fn chat_body_that_is_not_json_is_a_parse_error() {
    for body in ["not json", ""] {
        match after_chat_send(1, responded(200, body)) {
            ChatStep::Finished { result: Err(ClientError::Parse { detail }) } => {
                assert!(detail.starts_with("Failed to parse response: "), "{}", detail)
            }
            _ => panic!("expected a parse error"),
        }
    }
    assert!(completion_content(&b"[1,".to_vec()).is_err());
}

#[test]
fn repeated_key_keeps_its_last_value() {
    let body = r#"{"transcription":"first","transcription":"second"}"#;
    let step = after_transcription(TranscribeOutcome::Sent { outcome: responded(200, body) });
    assert_eq!(step.result.ok(), Some("second".to_string()));
}

#[test]
fn unreadable_bodies() {
    let unread = |status: u16| SendOutcome::BodyUnreadable { status, detail: "reset".to_string() };
    match after_chat_send(1, unread(200)) {
        ChatStep::Finished { result: Err(ClientError::Parse { detail }) } => {
            assert_eq!(detail, "Failed to parse response: reset")
        }
        _ => panic!("expected a parse error"),
    }
    match after_chat_send(1, unread(503)) {
        ChatStep::Finished { result: Err(ClientError::Api { status, body }) } => {
            assert_eq!(status, 503);
            assert_eq!(body, "No response body");
        }
        _ => panic!("expected an API error"),
    }
    let step = after_transcription(TranscribeOutcome::Sent { outcome: unread(200) });
    assert!(step.remove_temp_file);
    match step.result {
        Err(ClientError::Parse { detail }) => assert_eq!(detail, "Failed to parse STT service response JSON: reset"),
        _ => panic!("expected a parse error"),
    }
    match after_synthesis(unread(200)) {
        Err(ClientError::BodyRead { detail }) => assert_eq!(detail, "reset"),
        _ => panic!("expected a body read error"),
    }
    match after_synthesis(unread(400)) {
        Err(ClientError::Api { status, body }) => {
            assert_eq!(status, 400);
            assert_eq!(body, "No response body");
        }
        _ => panic!("expected an API error"),
    }
}

#[test]
fn error_status_is_an_api_error_from_every_endpoint() {
    match after_chat_send(1, responded(500, "boom")) {
        ChatStep::Finished { result: Err(ClientError::Api { status, body }) } => {
            assert_eq!(status, 500);
            assert_eq!(body, "boom");
        }
        _ => panic!("expected an API error without retry"),
    }
    let step = after_transcription(TranscribeOutcome::Sent { outcome: responded(404, "missing") });
    assert!(step.remove_temp_file);
    match step.result {
        Err(ClientError::Api { status, body }) => {
            assert_eq!(status, 404);
            assert_eq!(body, "missing");
        }
        _ => panic!("expected an API error"),
    }
    match after_synthesis(responded(401, "denied")) {
        Err(ClientError::Api { status, body }) => {
            assert_eq!(status, 401);
            assert_eq!(body, "denied");
        }
        _ => panic!("expected an API error"),
    }
}

#[test]
fn error_body_with_invalid_utf8_is_replaced() {
    match check_status(502, &vec![b'o', b'k', 0xff]) {
        Err(ClientError::Api { status, body }) => {
            assert_eq!(status, 502);
            assert_eq!(body, "ok\u{FFFD}");
        }
        _ => panic!("expected an API error"),
    }
    assert!(check_status(204, &Vec::new()).is_ok());
}

#[test]
fn success_statuses_are_two_hundreds() {
    assert!(is_success(200));
    assert!(is_success(299));
    assert!(!is_success(199));
    assert!(!is_success(300));
    assert!(!is_success(404));
}

#[test]
fn missing_secret_is_a_config_error() {
    match authorization(None) {
        Err(ClientError::Config { detail }) => assert_eq!(detail, "XAI_API_KEY"),
        _ => panic!("expected a config error"),
    }
    assert_eq!(authorization(Some("k1".to_string())).ok(), Some("Bearer k1".to_string()));
}

#[test]
fn temp_file_removed_on_every_path() {
    let outcomes = vec![
        TranscribeOutcome::WriteFailed { detail: "disk full".to_string() },
        TranscribeOutcome::Sent { outcome: failed("refused") },
        TranscribeOutcome::Sent { outcome: responded(500, "err") },
        TranscribeOutcome::Sent { outcome: responded(200, "not json") },
        TranscribeOutcome::Sent { outcome: responded(200, r#"{"other":1}"#) },
        TranscribeOutcome::Sent { outcome: responded(200, r#"{"transcription":"xin chao"}"#) },
    ];
    for o in outcomes {
        assert!(after_transcription(o).remove_temp_file);
    }
}

#[test]
fn transcription_results_per_stage() {
    match after_transcription(TranscribeOutcome::WriteFailed { detail: "disk full".to_string() }).result {
        Err(ClientError::Io { detail }) => assert_eq!(detail, "disk full"),
        _ => panic!("expected an io error"),
    }
    match after_transcription(TranscribeOutcome::Sent { outcome: failed("refused") }).result {
        Err(ClientError::Transport { attempts, detail }) => {
            assert_eq!(attempts, 1);
            assert_eq!(detail, "refused");
        }
        _ => panic!("expected a transport error"),
    }
    match after_transcription(TranscribeOutcome::Sent { outcome: responded(200, r#"{"other":1}"#) }).result {
        Err(ClientError::Parse { detail }) => assert_eq!(detail, "Transcription field not found in response"),
        _ => panic!("expected a parse error"),
    }
    match after_transcription(TranscribeOutcome::Sent { outcome: responded(200, "oops") }).result {
        Err(ClientError::Parse { detail }) => {
            assert!(detail.starts_with("Failed to parse STT service response JSON: "), "{}", detail)
        }
        _ => panic!("expected a parse error"),
    }
    let ok = after_transcription(TranscribeOutcome::Sent {
        outcome: responded(200, r#"{"transcription":"xin chao"}"#),
    });
    assert_eq!(ok.result.ok(), Some("xin chao".to_string()));
}

#[test]
fn default_voice_when_none_given() {
    assert_eq!(select_voice(None), "diep-chi");
    assert_eq!(select_voice(Some("x".to_string())), "x");
    let req = speech_request("hello".to_string(), None);
    assert_eq!(req.model, "tts-1");
    assert_eq!(req.input, "hello");
    assert_eq!(req.voice, "diep-chi");
    assert_eq!(speech_request("hello".to_string(), Some("x".to_string())).voice, "x");
}

#[test]
fn synthesis_returns_body_or_transport_error() {
    assert_eq!(after_synthesis(SendOutcome::Responded { status: 200, body: vec![1, 2, 3] }).ok(), Some(vec![1, 2, 3]));
    match after_synthesis(failed("timeout")) {
        Err(ClientError::Transport { attempts, detail }) => {
            assert_eq!(attempts, 1);
            assert_eq!(detail, "timeout");
        }
        _ => panic!("expected a transport error"),
    }
}

#[test]
fn stage_updates_carry_labels_and_messages() {
    let p = stage_update(ProcessingStage::ProcessingApi);
    assert_eq!(p.stage, "PROCESSING_API");
    assert_eq!(p.message.as_deref(), Some("Processing request..."));
    let t = stage_update(ProcessingStage::Transcribing);
    assert_eq!(t.stage, "TRANSCRIBING");
    assert_eq!(t.message.as_deref(), Some("Transcribing voice..."));
    let s = stage_update(ProcessingStage::SynthesizingVoice);
    assert_eq!(s.stage, "SYNTHESIZING_VOICE");
    assert!(s.message.is_none());
}

#[test]
fn required_text_reports_what_is_missing() {
    assert_eq!(required_text(Ok(Some("t".to_string())), "p: ", "x").ok(), Some("t".to_string()));
    match required_text(Ok(None), "p: ", "Content field not found in response") {
        Err(ClientError::Parse { detail }) => assert_eq!(detail, "Content field not found in response"),
        _ => panic!("expected a parse error"),
    }
    match required_text(Err("EOF".to_string()), "p: ", "x") {
        Err(ClientError::Parse { detail }) => assert_eq!(detail, "p: EOF"),
        _ => panic!("expected a parse error"),
    }
}
