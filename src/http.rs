use vstd::prelude::*;
use crate::error::ClientError;

verus! {

/// What `String::from_utf8_lossy` makes of a byte sequence.
pub uninterp spec fn lossy_text_of(b: Seq<u8>) -> Seq<char>;

/// Relies on String::from_utf8_lossy: the text depends on the bytes alone, and
/// no bytes give no text.
#[verifier::external_body]
fn lossy_text(b: &[u8]) -> (r: String)
    ensures
        r@ == lossy_text_of(b@),
        b@.len() == 0 ==> r@.len() == 0,
{
    String::from_utf8_lossy(b).into_owned()
}

/// A 2xx status, as HTTP defines success.
pub open spec fn status_is_success(status: u16) -> bool {
    200 <= status <= 299
}

/// Whether `status` is a success status.
pub fn is_success(status: u16) -> (r: bool)
    ensures
        r == status_is_success(status),
{
    200 <= status && status <= 299
}

/// Body text reported for an error response whose body could not be read.
pub const NO_BODY: &'static str = "No response body";

/// The API error for an error status, and `Ok(())` for a success status.
pub open spec fn status_result<T>(status: u16, body: Option<Seq<u8>>, r: Result<T, ClientError>) -> bool {
    if status_is_success(status) {
        r is Ok
    } else {
        r matches Err(ClientError::Api { status: s, body: t }) && s == status && t@ == match body {
            Some(b) => lossy_text_of(b),
            None => NO_BODY@,
        }
    }
}

/// Turns a response that arrived into `Ok(())` on a success status, and into an
/// API error carrying the status and the body as text otherwise.
pub fn check_status(status: u16, body: &Vec<u8>) -> (r: Result<(), ClientError>)
    ensures
        status_result(status, Some(body@), r),
{
    if is_success(status) {
        Ok(())
    } else {
        Err(ClientError::Api { status, body: lossy_text(body.as_slice()) })
    }
}

/// As `check_status`, for a response whose body could not be read.
pub fn check_status_unread(status: u16) -> (r: Result<(), ClientError>)
    ensures
        status_result(status, None, r),
{
    if is_success(status) {
        Ok(())
    } else {
        Err(ClientError::Api { status, body: String::from_str(NO_BODY) })
    }
}

/// `prefix` opens `s`.
pub open spec fn starts_with(s: Seq<char>, prefix: Seq<char>) -> bool {
    s.len() >= prefix.len() && s.take(prefix.len() as int) == prefix
}

/// What a field read from a success body gives: with `parsed` whether the
/// body was JSON and `found` the text at the expected place, if any.
pub open spec fn field_result(
    parsed: bool,
    found: Option<Seq<char>>,
    parse_prefix: Seq<char>,
    missing: Seq<char>,
    r: Result<String, ClientError>,
) -> bool {
    if !parsed {
        r matches Err(ClientError::Parse { detail }) && starts_with(detail@, parse_prefix)
    } else {
        match found {
            Some(c) => r matches Ok(t) && t@ == c,
            None => r matches Err(ClientError::Parse { detail }) && detail@ == missing,
        }
    }
}

/// The text of a field that a success body must hold: the text when it was
/// found; a parse error opening with `parse_prefix` and the parser's message
/// when the body was not JSON (`Err`); the `missing` message otherwise.
pub fn required_text(found: Result<Option<String>, String>, parse_prefix: &str, missing: &str) -> (r:
    Result<String, ClientError>)
    ensures
        field_result(
            found is Ok,
            match found {
                Ok(Some(t)) => Some(t@),
                _ => None,
            },
            parse_prefix@,
            missing@,
            r,
        ),
{
    match found {
        Ok(Some(t)) => Ok(t),
        Ok(None) => Err(ClientError::Parse { detail: String::from_str(missing) }),
        Err(e) => {
            let mut detail = String::from_str(parse_prefix);
            detail.append(e.as_str());
            proof {
                assert(detail@.take(parse_prefix@.len() as int) =~= parse_prefix@);
            }
            Err(ClientError::Parse { detail })
        },
    }
}

/// A JSON document as the library reasons about it. Numbers carry no value:
/// nothing here reads one.
pub enum JsonModel {
    Null,
    Bool(bool),
    Number,
    Str(Seq<char>),
    Array(Seq<JsonModel>),
    /// Members in the order written; a repeated key keeps its last value.
    Object(Seq<(Seq<char>, JsonModel)>),
}

/// The value of `key` among `entries`: the last entry with that key.
pub open spec fn member_of(entries: Seq<(Seq<char>, JsonModel)>, key: Seq<char>) -> Option<
    JsonModel,
>
    decreases entries.len(),
{
    if entries.len() == 0 {
        None
    } else if entries.last().0 == key {
        Some(entries.last().1)
    } else {
        member_of(entries.drop_last(), key)
    }
}

/// The member `key` of an object.
pub open spec fn model_member(m: JsonModel, key: Seq<char>) -> Option<JsonModel> {
    match m {
        JsonModel::Object(entries) => member_of(entries, key),
        _ => None,
    }
}

/// Element `i` of an array.
pub open spec fn model_element(m: JsonModel, i: int) -> Option<JsonModel> {
    match m {
        JsonModel::Array(items) => if 0 <= i < items.len() {
            Some(items[i])
        } else {
            None
        },
        _ => None,
    }
}

/// The text of a JSON string.
pub open spec fn model_text(m: JsonModel) -> Option<Seq<char>> {
    match m {
        JsonModel::Str(t) => Some(t),
        _ => None,
    }
}

/// What `serde_json::from_slice` makes of a byte sequence: `None` when the
/// bytes are not one JSON document.
pub uninterp spec fn json_model_of(b: Seq<u8>) -> Option<JsonModel>;

/// The document that a parsed `serde_json::Value` holds.
pub uninterp spec fn json_model(v: serde_json::Value) -> JsonModel;

#[verifier::external_type_specification]
#[verifier::external_body]
pub struct ExJsonValue(serde_json::Value);

/// Relies on serde_json::from_slice: the parsed document when the bytes are
/// JSON, the parser's message otherwise; no bytes are no JSON document.
#[verifier::external_body]
pub(crate) fn parse_json(b: &[u8]) -> (r: Result<serde_json::Value, String>)
    ensures
        r is Ok <==> json_model_of(b@) is Some,
        r matches Ok(v) ==> json_model_of(b@) == Some(json_model(v)),
        b@.len() == 0 ==> r is Err,
{
    serde_json::from_slice::<serde_json::Value>(b).map_err(|e| e.to_string())
}

/// Relies on serde_json::Value::get with a key: the member of an object, the
/// last one written when a key repeats.
#[verifier::external_body]
pub(crate) fn json_member<'a>(v: &'a serde_json::Value, key: &str) -> (r: Option<
    &'a serde_json::Value,
>)
    ensures
        r is Some <==> model_member(json_model(*v), key@) is Some,
        r matches Some(c) ==> model_member(json_model(*v), key@) == Some(json_model(*c)),
{
    v.get(key)
}

/// Relies on serde_json::Value::get with an index: the element of an array.
#[verifier::external_body]
pub(crate) fn json_element<'a>(v: &'a serde_json::Value, i: usize) -> (r: Option<
    &'a serde_json::Value,
>)
    ensures
        r is Some <==> model_element(json_model(*v), i as int) is Some,
        r matches Some(c) ==> model_element(json_model(*v), i as int) == Some(json_model(*c)),
{
    v.get(i)
}

/// Relies on serde_json::Value::as_str: the text of a JSON string.
#[verifier::external_body]
pub(crate) fn json_text(v: &serde_json::Value) -> (r: Option<String>)
    ensures
        r is Some <==> model_text(json_model(*v)) is Some,
        r matches Some(t) ==> model_text(json_model(*v)) == Some(t@),
{
    v.as_str().map(|s| s.to_owned())
}

} // verus!

verus! {

/// How one send to a remote service ended.
pub enum SendOutcome {
    /// No response arrived.
    TransportFailed { detail: String },
    /// A response arrived with this status and body.
    Responded { status: u16, body: Vec<u8> },
    /// A response arrived with this status, but its body could not be read.
    BodyUnreadable { status: u16, detail: String },
}

} // verus!
