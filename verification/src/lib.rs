//! A minimal client library for a team-messaging HTTP API.
//!
//! The library builds the JSON request body for each API operation, and
//! decodes the JSON response body into a typed result.  The HTTP transport
//! itself is left to the embedding application; the library describes each
//! exchange as plain data (an [`json::JsonValue`] request body and a response
//! body handed back as text), so that everything the client decides is
//! verified.

pub mod client;
pub mod json;
pub mod response;

pub use client::{ApiRequest, SlackClient};
pub use json::JsonValue;
pub use response::{
    open_modal_result, post_ephemeral_result, post_message_result, SlackEphemeralResponse,
    SlackError, SlackPostMessageResponse, SlackView, SlackViewOpenResponse, TransportOutcome,
};
