//! Typed results decoded from the JSON response of each API operation, and
//! the three-way error taxonomy every operation shares.
//!
//! A response either fails in transport (no body was obtained), fails to
//! decode (the body is not JSON of the expected shape), or decodes into a
//! typed result whose `ok` flag tells an API-level failure apart from
//! success.  The first two kinds are [`SlackError`] values; the third is
//! data in the result, so the caller can branch on the error code.

use vstd::prelude::*;

use crate::json::{fields_view, get_field, json_parse, json_view, lookup_field, parse_json, JsonSpec, JsonValue};

verus! {

/// The top-level response of `chat.postMessage`.
#[derive(Debug)]
pub struct SlackPostMessageResponse {
    pub ok: bool,
    pub channel: Option<String>,
    pub ts: Option<String>,
    pub error: Option<String>,
}

/// The top-level response of `chat.postEphemeral`.
#[derive(Debug)]
pub struct SlackEphemeralResponse {
    pub ok: bool,
    pub message_ts: Option<String>,
    pub error: Option<String>,
}

/// The top-level response of `views.open`.
#[derive(Debug)]
pub struct SlackViewOpenResponse {
    pub ok: bool,
    pub view: Option<SlackView>,
    pub error: Option<String>,
}

/// The view descriptor inside a `views.open` response: at minimum its
/// identifier.
#[derive(Debug)]
pub struct SlackView {
    pub id: String,
}

/// The model of a [`SlackPostMessageResponse`].
#[verifier::ext_equal]
pub struct PostMessageModel {
    pub ok: bool,
    pub channel: Option<Seq<char>>,
    pub ts: Option<Seq<char>>,
    pub error: Option<Seq<char>>,
}

/// The model of a [`SlackEphemeralResponse`].
#[verifier::ext_equal]
pub struct EphemeralModel {
    pub ok: bool,
    pub message_ts: Option<Seq<char>>,
    pub error: Option<Seq<char>>,
}

/// The model of a [`SlackViewOpenResponse`].
#[verifier::ext_equal]
pub struct ViewOpenModel {
    pub ok: bool,
    pub view: Option<Seq<char>>,
    pub error: Option<Seq<char>>,
}

impl View for SlackPostMessageResponse {
    type V = PostMessageModel;

    open spec fn view(&self) -> PostMessageModel {
        PostMessageModel {
            ok: self.ok,
            channel: self.channel.deep_view(),
            ts: self.ts.deep_view(),
            error: self.error.deep_view(),
        }
    }
}

impl View for SlackEphemeralResponse {
    type V = EphemeralModel;

    open spec fn view(&self) -> EphemeralModel {
        EphemeralModel {
            ok: self.ok,
            message_ts: self.message_ts.deep_view(),
            error: self.error.deep_view(),
        }
    }
}

impl View for SlackViewOpenResponse {
    type V = ViewOpenModel;

    open spec fn view(&self) -> ViewOpenModel {
        ViewOpenModel {
            ok: self.ok,
            view: match self.view {
                Some(v) => Some(v.id@),
                None => None,
            },
            error: self.error.deep_view(),
        }
    }
}

/// A required boolean field: it decodes only when present with a boolean
/// value.
pub open spec fn spec_bool_field(fields: Seq<(Seq<char>, JsonSpec)>, key: Seq<char>) -> Option<
    bool,
> {
    match lookup_field(fields, key) {
        Some(JsonSpec::Bool(b)) => Some(b),
        _ => None,
    }
}

/// An optional string field: absent and `null` decode to `None`, a string
/// decodes to `Some` of it, and any other value does not decode.
pub open spec fn spec_opt_str_field(fields: Seq<(Seq<char>, JsonSpec)>, key: Seq<char>) -> Option<
    Option<Seq<char>>,
> {
    match lookup_field(fields, key) {
        None => Some(None),
        Some(JsonSpec::Null) => Some(None),
        Some(JsonSpec::Str(s)) => Some(Some(s)),
        Some(_) => None,
    }
}

/// What a `chat.postMessage` response body decodes to: an object with a
/// boolean `ok` and optional strings `channel`, `ts` and `error`; `None`
/// when the body has any other shape.
pub open spec fn spec_post_message_response(v: JsonSpec) -> Option<PostMessageModel> {
    match v {
        JsonSpec::Object(fields) => match (
            spec_bool_field(fields, "ok"@),
            spec_opt_str_field(fields, "channel"@),
            spec_opt_str_field(fields, "ts"@),
            spec_opt_str_field(fields, "error"@),
        ) {
            (Some(ok), Some(channel), Some(ts), Some(error)) => Some(
                PostMessageModel { ok, channel, ts, error },
            ),
            _ => None,
        },
        _ => None,
    }
}

/// What a `chat.postEphemeral` response body decodes to.
pub open spec fn spec_ephemeral_response(v: JsonSpec) -> Option<EphemeralModel> {
    match v {
        JsonSpec::Object(fields) => match (
            spec_bool_field(fields, "ok"@),
            spec_opt_str_field(fields, "message_ts"@),
            spec_opt_str_field(fields, "error"@),
        ) {
            (Some(ok), Some(message_ts), Some(error)) => Some(
                EphemeralModel { ok, message_ts, error },
            ),
            _ => None,
        },
        _ => None,
    }
}

/// What the `view` field of a `views.open` response decodes to: absent and
/// `null` give `None`; an object with a string `id` gives that identifier;
/// anything else does not decode.
pub open spec fn spec_opt_view_field(fields: Seq<(Seq<char>, JsonSpec)>) -> Option<
    Option<Seq<char>>,
> {
    match lookup_field(fields, "view"@) {
        None => Some(None),
        Some(JsonSpec::Null) => Some(None),
        Some(JsonSpec::Object(inner)) => match lookup_field(inner, "id"@) {
            Some(JsonSpec::Str(id)) => Some(Some(id)),
            _ => None,
        },
        Some(_) => None,
    }
}

/// What a `views.open` response body decodes to.
pub open spec fn spec_view_open_response(v: JsonSpec) -> Option<ViewOpenModel> {
    match v {
        JsonSpec::Object(fields) => match (
            spec_bool_field(fields, "ok"@),
            spec_opt_view_field(fields),
            spec_opt_str_field(fields, "error"@),
        ) {
            (Some(ok), Some(view), Some(error)) => Some(ViewOpenModel { ok, view, error }),
            _ => None,
        },
        _ => None,
    }
}

/// Decode the required boolean `ok` field of a response object.
fn decode_bool_field(fields: &Vec<(String, JsonValue)>, key: String) -> (r: Option<bool>)
    ensures
        r == spec_bool_field(fields_view(fields@), key@),
{
    match get_field(fields, &key) {
        Some(JsonValue::Bool(b)) => Some(*b),
        _ => None,
    }
}

/// Decode an optional string field of a response object.
fn decode_opt_str_field(fields: &Vec<(String, JsonValue)>, key: String) -> (r: Option<
    Option<String>,
>)
    ensures
        r is Some <==> spec_opt_str_field(fields_view(fields@), key@) is Some,
        r is Some ==> r.unwrap().deep_view() == spec_opt_str_field(
            fields_view(fields@),
            key@,
        ).unwrap(),
{
    match get_field(fields, &key) {
        None => Some(None),
        Some(JsonValue::Null) => Some(None),
        Some(JsonValue::Str(s)) => Some(Some(s.clone())),
        Some(_) => None,
    }
}

/// Decode a `chat.postMessage` response body.
pub fn decode_post_message_response(v: &JsonValue) -> (r: Option<SlackPostMessageResponse>)
    ensures
        r is Some <==> spec_post_message_response(v@) is Some,
        r is Some ==> r.unwrap()@ == spec_post_message_response(v@).unwrap(),
{
    let fields = match v {
        JsonValue::Object(fields) => fields,
        _ => {
            return None;
        },
    };
    let ok = match decode_bool_field(fields, "ok".to_owned()) {
        Some(b) => b,
        None => {
            return None;
        },
    };
    let channel = match decode_opt_str_field(fields, "channel".to_owned()) {
        Some(c) => c,
        None => {
            return None;
        },
    };
    let ts = match decode_opt_str_field(fields, "ts".to_owned()) {
        Some(t) => t,
        None => {
            return None;
        },
    };
    let error = match decode_opt_str_field(fields, "error".to_owned()) {
        Some(e) => e,
        None => {
            return None;
        },
    };
    Some(SlackPostMessageResponse { ok, channel, ts, error })
}

/// Decode a `chat.postEphemeral` response body.
pub fn decode_ephemeral_response(v: &JsonValue) -> (r: Option<SlackEphemeralResponse>)
    ensures
        r is Some <==> spec_ephemeral_response(v@) is Some,
        r is Some ==> r.unwrap()@ == spec_ephemeral_response(v@).unwrap(),
{
    let fields = match v {
        JsonValue::Object(fields) => fields,
        _ => {
            return None;
        },
    };
    let ok = match decode_bool_field(fields, "ok".to_owned()) {
        Some(b) => b,
        None => {
            return None;
        },
    };
    let message_ts = match decode_opt_str_field(fields, "message_ts".to_owned()) {
        Some(t) => t,
        None => {
            return None;
        },
    };
    let error = match decode_opt_str_field(fields, "error".to_owned()) {
        Some(e) => e,
        None => {
            return None;
        },
    };
    Some(SlackEphemeralResponse { ok, message_ts, error })
}

/// Decode a `views.open` response body.
pub fn decode_view_open_response(v: &JsonValue) -> (r: Option<SlackViewOpenResponse>)
    ensures
        r is Some <==> spec_view_open_response(v@) is Some,
        r is Some ==> r.unwrap()@ == spec_view_open_response(v@).unwrap(),
{
    let fields = match v {
        JsonValue::Object(fields) => fields,
        _ => {
            return None;
        },
    };
    let ok = match decode_bool_field(fields, "ok".to_owned()) {
        Some(b) => b,
        None => {
            return None;
        },
    };
    let view = match get_field(fields, &"view".to_owned()) {
        None => None,
        Some(JsonValue::Null) => None,
        Some(JsonValue::Object(inner)) => match get_field(inner, &"id".to_owned()) {
            Some(JsonValue::Str(id)) => Some(SlackView { id: id.clone() }),
            _ => {
                return None;
            },
        },
        Some(_) => {
            return None;
        },
    };
    let error = match decode_opt_str_field(fields, "error".to_owned()) {
        Some(e) => e,
        None => {
            return None;
        },
    };
    Some(SlackViewOpenResponse { ok, view, error })
}

/// What the transport handed back for one request: the response body as
/// text, or a description of the failure that prevented any response from
/// being obtained.
#[derive(Debug)]
pub enum TransportOutcome {
    Response(String),
    Failure(String),
}

/// The two error kinds surfaced as failures: a transport failure, before
/// any response was obtained, and a response body that is not JSON of the
/// expected shape.  An API-level failure is not an error value: it is the
/// decoded response, with `ok` false and an error code, handed to the
/// caller as data.
#[derive(Debug)]
pub enum SlackError {
    Transport(String),
    Decode,
}

/// Interpret the outcome of a `chat.postMessage` exchange.  A transport
/// failure is surfaced as such, and the body, if any, is not parsed; a body
/// that does not decode is a decode failure; a body that decodes is
/// returned whether or not its `ok` flag is set.
pub fn post_message_result(outcome: TransportOutcome) -> (r: Result<
    SlackPostMessageResponse,
    SlackError,
>)
    ensures
        match outcome {
            TransportOutcome::Failure(msg) => r == Err::<SlackPostMessageResponse, SlackError>(
                SlackError::Transport(msg),
            ),
            TransportOutcome::Response(body) => match json_parse(body@) {
                None => r == Err::<SlackPostMessageResponse, SlackError>(SlackError::Decode),
                Some(j) => match spec_post_message_response(j) {
                    None => r == Err::<SlackPostMessageResponse, SlackError>(SlackError::Decode),
                    Some(m) => r is Ok && r.unwrap()@ == m,
                },
            },
        },
{
    match outcome {
        TransportOutcome::Failure(msg) => Err(SlackError::Transport(msg)),
        TransportOutcome::Response(body) => match parse_json(body.as_str()) {
            None => Err(SlackError::Decode),
            Some(v) => match decode_post_message_response(&v) {
                Some(resp) => Ok(resp),
                None => Err(SlackError::Decode),
            },
        },
    }
}

/// Interpret the outcome of a `chat.postEphemeral` exchange, with the same
/// three-way taxonomy as [`post_message_result`].
pub fn post_ephemeral_result(outcome: TransportOutcome) -> (r: Result<
    SlackEphemeralResponse,
    SlackError,
>)
    ensures
        match outcome {
            TransportOutcome::Failure(msg) => r == Err::<SlackEphemeralResponse, SlackError>(
                SlackError::Transport(msg),
            ),
            TransportOutcome::Response(body) => match json_parse(body@) {
                None => r == Err::<SlackEphemeralResponse, SlackError>(SlackError::Decode),
                Some(j) => match spec_ephemeral_response(j) {
                    None => r == Err::<SlackEphemeralResponse, SlackError>(SlackError::Decode),
                    Some(m) => r is Ok && r.unwrap()@ == m,
                },
            },
        },
{
    match outcome {
        TransportOutcome::Failure(msg) => Err(SlackError::Transport(msg)),
        TransportOutcome::Response(body) => match parse_json(body.as_str()) {
            None => Err(SlackError::Decode),
            Some(v) => match decode_ephemeral_response(&v) {
                Some(resp) => Ok(resp),
                None => Err(SlackError::Decode),
            },
        },
    }
}

/// Interpret the outcome of a `views.open` exchange, with the same
/// three-way taxonomy as [`post_message_result`].
pub fn open_modal_result(outcome: TransportOutcome) -> (r: Result<
    SlackViewOpenResponse,
    SlackError,
>)
    ensures
        match outcome {
            TransportOutcome::Failure(msg) => r == Err::<SlackViewOpenResponse, SlackError>(
                SlackError::Transport(msg),
            ),
            TransportOutcome::Response(body) => match json_parse(body@) {
                None => r == Err::<SlackViewOpenResponse, SlackError>(SlackError::Decode),
                Some(j) => match spec_view_open_response(j) {
                    None => r == Err::<SlackViewOpenResponse, SlackError>(SlackError::Decode),
                    Some(m) => r is Ok && r.unwrap()@ == m,
                },
            },
        },
{
    match outcome {
        TransportOutcome::Failure(msg) => Err(SlackError::Transport(msg)),
        TransportOutcome::Response(body) => match parse_json(body.as_str()) {
            None => Err(SlackError::Decode),
            Some(v) => match decode_view_open_response(&v) {
                Some(resp) => Ok(resp),
                None => Err(SlackError::Decode),
            },
        },
    }
}

} // verus!
