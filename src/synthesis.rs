use vstd::prelude::*;
use crate::error::ClientError;
use crate::http::{check_status, check_status_unread, status_is_success, status_result, SendOutcome};

verus! {

pub const SPEECH_URL: &'static str = "http://localhost:8298/v1/audio/speech";

pub const SPEECH_MODEL: &'static str = "tts-1";

pub const SPEECH_AUTHORIZATION: &'static str = "Bearer viet-tts";

pub const DEFAULT_VOICE: &'static str = "diep-chi";

/// The body of a speech-synthesis request.
pub struct SpeechRequest {
    pub model: String,
    pub input: String,
    pub voice: String,
}

/// The voice asked for, or the default voice when none is.
pub fn select_voice(voice: Option<String>) -> (r: String)
    ensures
        voice is None ==> r@ == DEFAULT_VOICE@,
        voice matches Some(v) ==> r@ == v@,
{
    match voice {
        Some(v) => v,
        None => String::from_str(DEFAULT_VOICE),
    }
}

/// The request that reads `text` aloud with the selected voice.
pub fn speech_request(text: String, voice: Option<String>) -> (r: SpeechRequest)
    ensures
        r.model@ == SPEECH_MODEL@,
        r.input@ == text@,
        voice is None ==> r.voice@ == DEFAULT_VOICE@,
        voice matches Some(v) ==> r.voice@ == v@,
{
    SpeechRequest { model: String::from_str(SPEECH_MODEL), input: text, voice: select_voice(voice) }
}

/// The audio for a finished send: the body of a success response; otherwise the
/// transport error, an API error with the status and body, or the error of a
/// body that could not be read. Nothing is retried.
pub fn after_synthesis(outcome: SendOutcome) -> (r: Result<Vec<u8>, ClientError>)
    ensures
        outcome matches SendOutcome::TransportFailed { detail } ==> r == Err::<Vec<u8>, ClientError>(
            ClientError::Transport { attempts: 1, detail },
        ),
        outcome matches SendOutcome::Responded { status, body } ==> ((status_is_success(status)
            ==> r == Ok::<Vec<u8>, ClientError>(body)) && (!status_is_success(status)
            ==> status_result(status, Some(body@), r))),
        outcome matches SendOutcome::BodyUnreadable { status, detail } ==> ((status_is_success(status)
            ==> r == Err::<Vec<u8>, ClientError>(ClientError::BodyRead { detail })) && (
        !status_is_success(status) ==> status_result(status, None, r))),
{
    match outcome {
        SendOutcome::TransportFailed { detail } => Err(ClientError::Transport { attempts: 1, detail }),
        SendOutcome::Responded { status, body } => match check_status(status, &body) {
            Ok(()) => Ok(body),
            Err(e) => Err(e),
        },
        SendOutcome::BodyUnreadable { status, detail } => match check_status_unread(status) {
            Ok(()) => Err(ClientError::BodyRead { detail }),
            Err(e) => Err(e),
        },
    }
}

} // verus!
