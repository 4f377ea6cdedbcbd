use vstd::prelude::*;
use crate::error::ClientError;
use crate::http::{
    check_status, check_status_unread, field_result, json_element, json_member, json_model_of,
    json_text, model_element, model_member, model_text, parse_json, required_text, status_is_success,
    status_result, JsonModel, SendOutcome,
};
use crate::message::{messages_view, persona_view, with_persona, Message};
use crate::retry::{after_transport_failure, pause_after_failures, RetryDecision};

verus! {

pub const CHAT_URL: &'static str = "https://api.x.ai/v1/chat/completions";

pub const CHAT_MODEL: &'static str = "grok-3-mini-beta";

/// Environment variable that holds the chat service's secret.
pub const CHAT_KEY_VAR: &'static str = "XAI_API_KEY";

/// The body of a chat-completion request.
pub struct ChatRequest {
    pub model: String,
    pub messages: Vec<Message>,
}

/// The request for `messages`: the fixed model, and the conversation with the
/// persona message in front.
pub fn chat_request(messages: &Vec<Message>) -> (r: ChatRequest)
    ensures
        r.model@ == CHAT_MODEL@,
        messages_view(r.messages@) == seq![persona_view()] + messages_view(messages@),
{
    ChatRequest { model: String::from_str(CHAT_MODEL), messages: with_persona(messages) }
}

/// The authorization header value for the configured secret, or a
/// configuration error when there is none.
pub fn authorization(api_key: Option<String>) -> (r: Result<String, ClientError>)
    ensures
        api_key is None ==> (r matches Err(ClientError::Config { detail }) && detail@
            == CHAT_KEY_VAR@),
        api_key matches Some(k) ==> (r matches Ok(h) && h@ == "Bearer "@ + k@),
{
    proof {
        reveal_strlit("Bearer ");
    }
    match api_key {
        Some(k) => {
            let mut h = String::from_str("Bearer ");
            h.append(k.as_str());
            Ok(h)
        },
        None => Err(ClientError::Config { detail: String::from_str(CHAT_KEY_VAR) }),
    }
}

/// Parse error text of a success body that is not JSON; the parser's message follows.
pub const CHAT_PARSE_PREFIX: &'static str = "Failed to parse response: ";

/// Parse error text of a success body without the content field.
pub const CONTENT_MISSING: &'static str = "Content field not found in response";

/// The text at `choices[0].message.content` of a chat-completion document.
pub open spec fn first_content(doc: JsonModel) -> Option<Seq<char>> {
    match model_member(doc, "choices"@) {
        Some(choices) => match model_element(choices, 0) {
            Some(first) => match model_member(first, "message"@) {
                Some(message) => match model_member(message, "content"@) {
                    Some(content) => model_text(content),
                    None => None,
                },
                None => None,
            },
            None => None,
        },
        None => None,
    }
}

/// `first_content` of the document held in `body`, if it holds one.
pub open spec fn body_content(body: Seq<u8>) -> Option<Seq<char>> {
    match json_model_of(body) {
        Some(doc) => first_content(doc),
        None => None,
    }
}

/// The content of the first choice's message in a chat-completion response:
/// `Err` with the parser's message when the body is not JSON.
pub fn completion_content(body: &Vec<u8>) -> (r: Result<Option<String>, String>)
    ensures
        r is Ok <==> json_model_of(body@) is Some,
        r matches Ok(o) ==> match o {
            Some(t) => body_content(body@) == Some(t@),
            None => body_content(body@) is None,
        },
{
    proof {
        reveal_strlit("choices");
        reveal_strlit("message");
        reveal_strlit("content");
    }
    let doc = match parse_json(body.as_slice()) {
        Ok(d) => d,
        Err(e) => return Err(e),
    };
    let choices = match json_member(&doc, "choices") {
        Some(v) => v,
        None => return Ok(None),
    };
    let first = match json_element(choices, 0) {
        Some(v) => v,
        None => return Ok(None),
    };
    let message = match json_member(first, "message") {
        Some(v) => v,
        None => return Ok(None),
    };
    match json_member(message, "content") {
        Some(v) => Ok(json_text(v)),
        None => Ok(None),
    }
}

/// What the chat client does next.
pub enum ChatStep {
    /// Wait, then send the same request again.
    RetryAfter { delay_secs: u64 },
    /// Report this result to the caller.
    Finished { result: Result<String, ClientError> },
}

/// Decides what follows a send, the `attempts`-th one. Transport failures are
/// retried with backoff up to the limit; any response ends the exchange: an
/// error status with an API error that holds the status and the body, a
/// success with the first choice's content, or a parse error when the body is
/// not JSON or lacks that content.
pub fn after_chat_send(attempts: u32, outcome: SendOutcome) -> (r: ChatStep)
    requires
        attempts >= 1,
    ensures
        outcome matches SendOutcome::TransportFailed { detail } ==> (match pause_after_failures(
            attempts as nat,
        ) {
            Some(d) => r == ChatStep::RetryAfter { delay_secs: d as u64 },
            None => r == ChatStep::Finished {
                result: Err(ClientError::Transport { attempts, detail }),
            },
        }),
        outcome matches SendOutcome::Responded { status, body } ==> (r matches ChatStep::Finished {
            result,
        } && (!status_is_success(status) ==> status_result(status, Some(body@), result))
            && (status_is_success(status) ==> field_result(
            json_model_of(body@) is Some,
            body_content(body@),
            CHAT_PARSE_PREFIX@,
            CONTENT_MISSING@,
            result,
        ))),
        outcome matches SendOutcome::BodyUnreadable { status, detail } ==> (r matches ChatStep::Finished {
            result,
        } && (!status_is_success(status) ==> status_result(status, None, result)) && (
        status_is_success(status) ==> field_result(false, None, CHAT_PARSE_PREFIX@, CONTENT_MISSING@, result))),
{
    match outcome {
        SendOutcome::TransportFailed { detail } => match after_transport_failure(attempts) {
            RetryDecision::RetryAfter { delay_secs } => ChatStep::RetryAfter { delay_secs },
            RetryDecision::GiveUp => ChatStep::Finished {
                result: Err(ClientError::Transport { attempts, detail }),
            },
        },
        SendOutcome::Responded { status, body } => {
            if let Err(e) = check_status(status, &body) {
                return ChatStep::Finished { result: Err(e) };
            }
            ChatStep::Finished {
                result: required_text(completion_content(&body), CHAT_PARSE_PREFIX, CONTENT_MISSING),
            }
        },
        SendOutcome::BodyUnreadable { status, detail } => {
            if let Err(e) = check_status_unread(status) {
                return ChatStep::Finished { result: Err(e) };
            }
            ChatStep::Finished { result: required_text(Err(detail), CHAT_PARSE_PREFIX, CONTENT_MISSING) }
        },
    }
}

} // verus!
