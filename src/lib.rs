//! Typed HTTP request dispatch.
//!
//! A request type describes itself once (method, path, body encoding,
//! response type) by implementing [`Request`]; a [`Client`] then turns any
//! value of it into an outbound exchange. The decisions of one exchange are
//! made by [`Exchange`], a state machine that takes what the transport and
//! the codec returned as events, so that every outcome is fixed by contract.
//!
//! A body encoding is any type that implements [`SerializeBody`]; [`NoBody`]
//! sends nothing and cannot fail. A [`Client`] may be limited to a request
//! group: a marker type that request types join by implementing
//! [`InRequestGroup`] for it, so that sending any other type does not compile.
mod body;
mod client;
mod error;
mod exchange;
mod group;
mod method;
mod text;

pub use body::{NoBody, Request, SerializeBody, SimpleBody};
pub use client::{compose_url, prepare_send, Client};
pub use error::Error;
pub use exchange::{
    is_success, json_content_type, lemma_decode_failure_shows_body, lemma_rejected_status_is_reported,
    lemma_success_status_decodes_body, success_status, unread_body_prefix, Action, Event, Exchange,
};
pub use group::{All, InRequestGroup};
pub use method::HttpMethod;
pub use text::{
    body_bytes_to_str, render_decoded, renders, rendering, unreadable_prefix, utf8_error_text,
    utf8_text,
};
