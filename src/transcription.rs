use vstd::prelude::*;
use crate::error::ClientError;
use crate::http::{
    check_status, check_status_unread, field_result, json_member, json_model_of, json_text,
    model_member, model_text, parse_json, required_text, status_is_success, status_result, JsonModel,
    SendOutcome,
};

verus! {

pub const TRANSCRIBE_URL: &'static str = "http://127.0.0.1:5000/transcribe";

/// Name of the multipart part that carries the audio.
pub const AUDIO_PART: &'static str = "audio";

pub const AUDIO_FILE_NAME: &'static str = "audio.wav";

pub const AUDIO_MIME: &'static str = "audio/wav";

/// How a transcription request went, as far as it got.
pub enum TranscribeOutcome {
    /// The temporary copy of the audio could not be written.
    WriteFailed { detail: String },
    /// The upload was made; this is how it ended.
    Sent { outcome: SendOutcome },
}

/// The result for the caller, and whether the temporary audio file is to be
/// removed before returning.
pub struct TranscriptionStep {
    pub result: Result<String, ClientError>,
    pub remove_temp_file: bool,
}

/// Parse error text of a success body that is not JSON; the parser's message follows.
pub const TRANSCRIPTION_PARSE_PREFIX: &'static str = "Failed to parse STT service response JSON: ";

/// Parse error text of a success body without the transcription field.
pub const TRANSCRIPTION_MISSING: &'static str = "Transcription field not found in response";

/// The text of the `transcription` member of the service's answer.
pub open spec fn transcription_field(doc: JsonModel) -> Option<Seq<char>> {
    match model_member(doc, "transcription"@) {
        Some(v) => model_text(v),
        None => None,
    }
}

/// `transcription_field` of the document held in `body`, if it holds one.
pub open spec fn body_transcription(body: Seq<u8>) -> Option<Seq<char>> {
    match json_model_of(body) {
        Some(doc) => transcription_field(doc),
        None => None,
    }
}

/// The `transcription` text of the service's JSON answer: `Err` with the
/// parser's message when the body is not JSON.
pub fn transcription_text(body: &Vec<u8>) -> (r: Result<Option<String>, String>)
    ensures
        r is Ok <==> json_model_of(body@) is Some,
        r matches Ok(o) ==> match o {
            Some(t) => body_transcription(body@) == Some(t@),
            None => body_transcription(body@) is None,
        },
{
    proof {
        reveal_strlit("transcription");
    }
    let doc = match parse_json(body.as_slice()) {
        Ok(d) => d,
        Err(e) => return Err(e),
    };
    match json_member(&doc, "transcription") {
        Some(v) => Ok(json_text(v)),
        None => Ok(None),
    }
}

/// Ends a transcription request. The temporary file is removed on every path,
/// whichever stage failed.
pub fn after_transcription(outcome: TranscribeOutcome) -> (r: TranscriptionStep)
    ensures
        r.remove_temp_file,
        outcome matches TranscribeOutcome::WriteFailed { detail } ==> r.result == Err::<
            String,
            ClientError,
        >(ClientError::Io { detail }),
        outcome matches TranscribeOutcome::Sent { outcome: SendOutcome::TransportFailed { detail } }
            ==> r.result == Err::<String, ClientError>(ClientError::Transport { attempts: 1, detail }),
        outcome matches TranscribeOutcome::Sent { outcome: SendOutcome::Responded { status, body } }
            ==> ((!status_is_success(status) ==> status_result(status, Some(body@), r.result)) && (
        status_is_success(status) ==> field_result(
            json_model_of(body@) is Some,
            body_transcription(body@),
            TRANSCRIPTION_PARSE_PREFIX@,
            TRANSCRIPTION_MISSING@,
            r.result,
        ))),
        outcome matches TranscribeOutcome::Sent {
            outcome: SendOutcome::BodyUnreadable { status, detail },
        } ==> ((!status_is_success(status) ==> status_result(status, None, r.result)) && (
        status_is_success(status) ==> field_result(
            false,
            None,
            TRANSCRIPTION_PARSE_PREFIX@,
            TRANSCRIPTION_MISSING@,
            r.result,
        ))),
{
    let result = match outcome {
        TranscribeOutcome::WriteFailed { detail } => Err(ClientError::Io { detail }),
        TranscribeOutcome::Sent { outcome: SendOutcome::TransportFailed { detail } } => Err(
            ClientError::Transport { attempts: 1, detail },
        ),
        TranscribeOutcome::Sent { outcome: SendOutcome::Responded { status, body } } => {
            match check_status(status, &body) {
                Err(e) => Err(e),
                Ok(()) => required_text(
                    transcription_text(&body),
                    TRANSCRIPTION_PARSE_PREFIX,
                    TRANSCRIPTION_MISSING,
                ),
            }
        },
        TranscribeOutcome::Sent { outcome: SendOutcome::BodyUnreadable { status, detail } } => {
            match check_status_unread(status) {
                Err(e) => Err(e),
                Ok(()) => required_text(Err(detail), TRANSCRIPTION_PARSE_PREFIX, TRANSCRIPTION_MISSING),
            }
        },
    };
    TranscriptionStep { result, remove_temp_file: true }
}

} // verus!
