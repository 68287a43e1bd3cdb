//! The messaging client and the requests it builds.
//!
//! A [`SlackClient`] holds the bearer token for one workspace.  For each API
//! operation it turns the caller's arguments into an [`ApiRequest`]: the
//! endpoint URL, the token to send as `Authorization: Bearer <token>`, and
//! the JSON request body.  The embedding application performs the HTTP POST
//! and hands the outcome back to the response functions in
//! [`crate::response`].

use vstd::prelude::*;

use crate::json::{fields_view, json_view, JsonSpec, JsonValue};

verus! {

/// A client for the messaging API, holding the bearer token used to
/// authenticate every request.  The token is immutable after construction;
/// the client keeps no other state, so no call depends on an earlier one.
pub struct SlackClient {
    token: String,
}

/// One HTTP exchange, described as plain data: POST `body` as JSON to `url`
/// with bearer authentication by `bearer_token`.
#[derive(Debug, PartialEq)]
pub struct ApiRequest {
    pub url: String,
    pub bearer_token: String,
    pub body: JsonValue,
}

/// The model of an [`ApiRequest`].
#[verifier::ext_equal]
pub struct ApiRequestModel {
    pub url: Seq<char>,
    pub bearer_token: Seq<char>,
    pub body: JsonSpec,
}

impl View for ApiRequest {
    type V = ApiRequestModel;

    open spec fn view(&self) -> ApiRequestModel {
        ApiRequestModel { url: self.url@, bearer_token: self.bearer_token@, body: self.body@ }
    }
}

/// The fixed endpoint for posting a channel message.
pub open spec fn spec_post_message_url() -> Seq<char> {
    "https://slack.com/api/chat.postMessage"@
}

/// The fixed endpoint for posting an ephemeral message.
pub open spec fn spec_post_ephemeral_url() -> Seq<char> {
    "https://slack.com/api/chat.postEphemeral"@
}

/// The fixed endpoint for opening a modal view.
pub open spec fn spec_open_modal_url() -> Seq<char> {
    "https://slack.com/api/views.open"@
}

/// The body of a `chat.postMessage` request: exactly the fields `channel`
/// and `text`, and, only when blocks are given, the opaque blocks payload
/// unmodified under the field `blocks`.
pub open spec fn spec_post_message_body(
    channel: Seq<char>,
    text: Seq<char>,
    blocks: Option<JsonSpec>,
) -> JsonSpec {
    match blocks {
        None => JsonSpec::Object(
            seq![("channel"@, JsonSpec::Str(channel)), ("text"@, JsonSpec::Str(text))],
        ),
        Some(b) => JsonSpec::Object(
            seq![
                ("channel"@, JsonSpec::Str(channel)),
                ("text"@, JsonSpec::Str(text)),
                ("blocks"@, b),
            ],
        ),
    }
}

/// The body of a `chat.postEphemeral` request: exactly the fields `channel`,
/// `user` and `text`, and, only when blocks are given, the opaque blocks
/// payload unmodified under the field `blocks`.
pub open spec fn spec_post_ephemeral_body(
    channel: Seq<char>,
    user: Seq<char>,
    text: Seq<char>,
    blocks: Option<JsonSpec>,
) -> JsonSpec {
    match blocks {
        None => JsonSpec::Object(
            seq![
                ("channel"@, JsonSpec::Str(channel)),
                ("user"@, JsonSpec::Str(user)),
                ("text"@, JsonSpec::Str(text)),
            ],
        ),
        Some(b) => JsonSpec::Object(
            seq![
                ("channel"@, JsonSpec::Str(channel)),
                ("user"@, JsonSpec::Str(user)),
                ("text"@, JsonSpec::Str(text)),
                ("blocks"@, b),
            ],
        ),
    }
}

/// The body of a `views.open` request: exactly the trigger identifier under
/// `trigger_id` and the opaque view payload unmodified under `view`.
pub open spec fn spec_open_modal_body(trigger_id: Seq<char>, view: JsonSpec) -> JsonSpec {
    JsonSpec::Object(seq![("trigger_id"@, JsonSpec::Str(trigger_id)), ("view"@, view)])
}

impl SlackClient {
    /// The bearer token this client was constructed with.
    pub closed spec fn token_view(&self) -> Seq<char> {
        self.token@
    }

    /// Create a client that authenticates with the given bearer token.
    pub fn new(token: String) -> (r: Self)
        ensures
            r.token_view() == token@,
    {
        SlackClient { token }
    }

    /// Build the request that posts `text` to `channel`, with the opaque
    /// blocks payload passed through verbatim when one is given.
    pub fn post_message_request(
        &self,
        channel: &str,
        text: &str,
        blocks: Option<JsonValue>,
    ) -> (r: ApiRequest)
        ensures
            r@.url == spec_post_message_url(),
            r@.bearer_token == self.token_view(),
            r@.body == spec_post_message_body(channel@, text@, blocks.deep_view()),
    {
        let ghost bview = blocks.deep_view();
        let mut fields: Vec<(String, JsonValue)> = Vec::new();
        fields.push(("channel".to_owned(), JsonValue::Str(channel.to_owned())));
        fields.push(("text".to_owned(), JsonValue::Str(text.to_owned())));
        if let Some(b) = blocks {
            fields.push(("blocks".to_owned(), b));
        }
        let r = ApiRequest {
            url: "https://slack.com/api/chat.postMessage".to_owned(),
            bearer_token: self.token.clone(),
            body: JsonValue::Object(fields),
        };
        proof {
            let m = spec_post_message_body(channel@, text@, bview);
            let flds = r.body->Object_0;
            let s = r.body@->Object_0;
            assert(s == fields_view(flds@));
            assert(s.len() == flds@.len());
            assert(s[0] == (flds@[0].0@, json_view(flds@[0].1)));
            assert(s[1] == (flds@[1].0@, json_view(flds@[1].1)));
            assert(s[0] == ("channel"@, JsonSpec::Str(channel@)));
            assert(s[1] == ("text"@, JsonSpec::Str(text@)));
            match bview {
                Some(b) => {
                    assert(s[2] == (flds@[2].0@, json_view(flds@[2].1)));
                    assert(s[2] == ("blocks"@, b));
                },
                None => assert(s.len() == 2),
            }
            assert(s =~= m->Object_0);
            assert(r@.body =~~= m);
        }
        r
    }

    /// Build the request that posts `text` to `channel` visibly only to
    /// `user_id`, with the opaque blocks payload passed through verbatim
    /// when one is given.
    pub fn post_ephemeral_request(
        &self,
        channel: &str,
        user_id: &str,
        text: &str,
        blocks: Option<JsonValue>,
    ) -> (r: ApiRequest)
        ensures
            r@.url == spec_post_ephemeral_url(),
            r@.bearer_token == self.token_view(),
            r@.body == spec_post_ephemeral_body(channel@, user_id@, text@, blocks.deep_view()),
    {
        let ghost bview = blocks.deep_view();
        let mut fields: Vec<(String, JsonValue)> = Vec::new();
        fields.push(("channel".to_owned(), JsonValue::Str(channel.to_owned())));
        fields.push(("user".to_owned(), JsonValue::Str(user_id.to_owned())));
        fields.push(("text".to_owned(), JsonValue::Str(text.to_owned())));
        if let Some(b) = blocks {
            fields.push(("blocks".to_owned(), b));
        }
        let r = ApiRequest {
            url: "https://slack.com/api/chat.postEphemeral".to_owned(),
            bearer_token: self.token.clone(),
            body: JsonValue::Object(fields),
        };
        proof {
            let m = spec_post_ephemeral_body(channel@, user_id@, text@, bview);
            let flds = r.body->Object_0;
            let s = r.body@->Object_0;
            assert(s == fields_view(flds@));
            assert(s.len() == flds@.len());
            assert(s[0] == (flds@[0].0@, json_view(flds@[0].1)));
            assert(s[1] == (flds@[1].0@, json_view(flds@[1].1)));
            assert(s[2] == (flds@[2].0@, json_view(flds@[2].1)));
            assert(s[0] == ("channel"@, JsonSpec::Str(channel@)));
            assert(s[1] == ("user"@, JsonSpec::Str(user_id@)));
            assert(s[2] == ("text"@, JsonSpec::Str(text@)));
            match bview {
                Some(b) => {
                    assert(s[3] == (flds@[3].0@, json_view(flds@[3].1)));
                    assert(s[3] == ("blocks"@, b));
                },
                None => assert(s.len() == 3),
            }
            assert(s =~= m->Object_0);
            assert(r@.body =~~= m);
        }
        r
    }

    /// Build the request that opens a modal: the short-lived trigger
    /// identifier and the opaque view payload, both placed verbatim under
    /// their fixed keys.
    pub fn open_modal_request(&self, trigger_id: &str, view: JsonValue) -> (r: ApiRequest)
        ensures
            r@.url == spec_open_modal_url(),
            r@.bearer_token == self.token_view(),
            r@.body == spec_open_modal_body(trigger_id@, view@),
    {
        let ghost vview = view@;
        let mut fields: Vec<(String, JsonValue)> = Vec::new();
        fields.push(("trigger_id".to_owned(), JsonValue::Str(trigger_id.to_owned())));
        fields.push(("view".to_owned(), view));
        let r = ApiRequest {
            url: "https://slack.com/api/views.open".to_owned(),
            bearer_token: self.token.clone(),
            body: JsonValue::Object(fields),
        };
        proof {
            let m = spec_open_modal_body(trigger_id@, vview);
            let flds = r.body->Object_0;
            let s = r.body@->Object_0;
            assert(s == fields_view(flds@));
            assert(s.len() == flds@.len());
            assert(s[0] == (flds@[0].0@, json_view(flds@[0].1)));
            assert(s[1] == (flds@[1].0@, json_view(flds@[1].1)));
            assert(s[0] == ("trigger_id"@, JsonSpec::Str(trigger_id@)));
            assert(s[1] == ("view"@, vview));
            assert(s =~= m->Object_0);
            assert(r@.body =~~= m);
        }
        r
    }
}

/// Re-sending is not deduplicated by the client.  A second call of
/// `post_message_request` with the same token and arguments is required by
/// its contract to build a request equal to the first in URL, bearer token
/// and body: nothing marks it as a repeat, and the client holds no state a
/// first call could have changed, so the transport delivers two
/// independent, identical requests and the remote service posts two
/// messages.
pub proof fn lemma_post_message_resend_is_identical(
    first: ApiRequestModel,
    second: ApiRequestModel,
    token: Seq<char>,
    channel: Seq<char>,
    text: Seq<char>,
    blocks: Option<JsonSpec>,
)
    requires
        first.url == spec_post_message_url(),
        first.bearer_token == token,
        first.body == spec_post_message_body(channel, text, blocks),
        second.url == spec_post_message_url(),
        second.bearer_token == token,
        second.body == spec_post_message_body(channel, text, blocks),
    ensures
        first == second,
{
    assert(first =~= second);
}

} // verus!
