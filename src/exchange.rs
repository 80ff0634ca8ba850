use vstd::pervasive::unreached;
use vstd::prelude::*;

use crate::error::Error;
use crate::method::HttpMethod;
use crate::text::{body_bytes_to_str, renders};
use reqwest::Error as TransportError;
use serde_json::Error as JsonError;

verus! {

/// A status in 200..=299 is a success; every other status is a rejection.
pub open spec fn success_status(status: u16) -> bool {
    200 <= status && status <= 299
}

/// Whether a response status counts as a success.
pub fn is_success(status: u16) -> (r: bool)
    ensures
        r == success_status(status),
{
    200 <= status && status <= 299
}

/// The content type that every request declares.
pub open spec fn json_content_type() -> Seq<char> {
    "application/json"@
}

/// What precedes the transport's diagnostic when a rejected response's body
/// cannot be read.
pub open spec fn unread_body_prefix() -> Seq<char> {
    "failed to get body: "@
}

/// Relies on the `Debug` impl of reqwest::Error: a diagnostic for a failed
/// read. Nothing is stated of its text.
#[verifier::external_body]
fn transport_diagnostic(error: &TransportError) -> String {
    format!("{error:?}")
}

/// Where one request stands on its way from a value to an outcome.
///
/// A driver that can reach the transport and the decoder runs the exchange:
/// it performs each [`Action`] that [`Exchange::step`] hands out and feeds
/// what came of it back as an [`Event`], until the action is `Finish`.
pub enum Exchange {
    /// The body is being encoded; the request goes to `url` with `method`.
    Encoding { method: HttpMethod, url: String },
    /// The request is on the wire; the response status is awaited.
    Sending,
    /// The status was a success; the body is being read.
    ReadingBody,
    /// The status was a rejection; the body is being read for the error.
    ReadingRejection { status: u16 },
    /// The body of a successful response is being decoded.
    Decoding { body: Vec<u8> },
    /// The outcome has been handed out.
    Finished,
}

/// What came of the last action.
pub enum Event<Res, Ser> {
    /// The request body was encoded, or failed to be.
    Encoded(Result<Vec<u8>, Ser>),
    /// The transport returned the response status, or failed.
    Responded(Result<u16, TransportError>),
    /// The response body was read, or the read failed.
    BodyRead(Result<Vec<u8>, TransportError>),
    /// The response body was decoded, or failed to be.
    Decoded(Result<Res, JsonError>),
}

/// What the driver is to do next.
pub enum Action<Res, Ser> {
    /// Send one request with this method, url, body and content type.
    Transmit { method: HttpMethod, url: String, body: Vec<u8>, content_type: &'static str },
    /// Read the response body.
    ReadBody,
    /// Decode the body held by [`Exchange::Decoding`] into the response type.
    Decode,
    /// The exchange is over, with this outcome.
    Finish(Result<Res, Error<Ser>>),
}

impl Exchange {
    /// Starts an exchange that sends to `url` with `method`.
    pub fn new(method: HttpMethod, url: String) -> (r: Exchange)
        ensures
            r == (Exchange::Encoding { method, url }),
    {
        Exchange::Encoding { method, url }
    }

    /// The event that each state waits for.
    pub open spec fn expects<Res, Ser>(self, event: Event<Res, Ser>) -> bool {
        match self {
            Exchange::Encoding { .. } => event is Encoded,
            Exchange::Sending => event is Responded,
            Exchange::ReadingBody => event is BodyRead,
            Exchange::ReadingRejection { .. } => event is BodyRead,
            Exchange::Decoding { .. } => event is Decoded,
            Exchange::Finished => false,
        }
    }

    /// Whether this state waits for `event`.
    pub fn accepts<Res, Ser>(&self, event: &Event<Res, Ser>) -> (r: bool)
        ensures
            r == self.expects(*event),
    {
        match self {
            Exchange::Encoding { .. } => matches!(event, Event::Encoded(_)),
            Exchange::Sending => matches!(event, Event::Responded(_)),
            Exchange::ReadingBody => matches!(event, Event::BodyRead(_)),
            Exchange::ReadingRejection { .. } => matches!(event, Event::BodyRead(_)),
            Exchange::Decoding { .. } => matches!(event, Event::Decoded(_)),
            Exchange::Finished => false,
        }
    }

    /// One step of the dispatch: from this state and `event`, the `next`
    /// state and the `action` to perform.
    ///
    /// An encode failure ends the exchange before anything is sent; a
    /// transport failure ends it with `ClientError`; a status outside
    /// 200..=299 ends it with `InvalidStatusCode` whatever the body holds;
    /// a body that does not decode ends it with `DeserializationError`,
    /// which keeps the body as text.
    pub open spec fn transition<Res, Ser>(
        self,
        event: Event<Res, Ser>,
        next: Exchange,
        action: Action<Res, Ser>,
    ) -> bool {
        match (self, event) {
            (Exchange::Encoding { method, url }, Event::Encoded(Ok(body))) => {
                &&& next == Exchange::Sending
                &&& action matches Action::Transmit { method: m, url: u, body: b, content_type: c }
                &&& m == method && u == url && b == body && c@ == json_content_type()
            },
            (Exchange::Encoding { .. }, Event::Encoded(Err(e))) => {
                next == Exchange::Finished && action == Action::<Res, Ser>::Finish(
                    Err(Error::SerializationError(e)),
                )
            },
            (Exchange::Sending, Event::Responded(Ok(status))) => {
                &&& action == Action::<Res, Ser>::ReadBody
                &&& next == if success_status(status) {
                    Exchange::ReadingBody
                } else {
                    Exchange::ReadingRejection { status }
                }
            },
            (Exchange::Sending, Event::Responded(Err(e))) => {
                next == Exchange::Finished && action == Action::<Res, Ser>::Finish(
                    Err(Error::ClientError(e)),
                )
            },
            (Exchange::ReadingBody, Event::BodyRead(Ok(body))) => {
                next == (Exchange::Decoding { body }) && action == Action::<Res, Ser>::Decode
            },
            (Exchange::ReadingBody, Event::BodyRead(Err(e))) => {
                next == Exchange::Finished && action == Action::<Res, Ser>::Finish(
                    Err(Error::ClientError(e)),
                )
            },
            (Exchange::ReadingRejection { status }, Event::BodyRead(read)) => {
                &&& next == Exchange::Finished
                &&& action matches Action::Finish(Err(Error::InvalidStatusCode(s, text)))
                &&& s == status
                &&& match read {
                    Ok(body) => renders(body@, text@),
                    Err(_) => exists|d: Seq<char>| text@ == unread_body_prefix() + d,
                }
            },
            (Exchange::Decoding { .. }, Event::Decoded(Ok(value))) => {
                next == Exchange::Finished && action == Action::<Res, Ser>::Finish(Ok(value))
            },
            (Exchange::Decoding { body }, Event::Decoded(Err(e))) => {
                &&& next == Exchange::Finished
                &&& action matches Action::Finish(
                    Err(Error::DeserializationError { error, response_body }),
                )
                &&& error == e
                &&& renders(body@, response_body@)
            },
            _ => false,
        }
    }

    /// Takes one step of the dispatch; see [`Exchange::transition`].
    pub fn step<Res, Ser>(self, event: Event<Res, Ser>) -> (r: (Exchange, Action<Res, Ser>))
        requires
            self.expects(event),
        ensures
            self.transition(event, r.0, r.1),
    {
        match self {
            Exchange::Encoding { method, url } => match event {
                Event::Encoded(Ok(body)) => {
                    let content_type = "application/json";
                    (Exchange::Sending, Action::Transmit { method, url, body, content_type })
                },
                Event::Encoded(Err(e)) => (
                    Exchange::Finished,
                    Action::Finish(Err(Error::SerializationError(e))),
                ),
                _ => unreached(),
            },
            Exchange::Sending => match event {
                Event::Responded(Ok(status)) => {
                    if is_success(status) {
                        (Exchange::ReadingBody, Action::ReadBody)
                    } else {
                        (Exchange::ReadingRejection { status }, Action::ReadBody)
                    }
                },
                Event::Responded(Err(e)) => (
                    Exchange::Finished,
                    Action::Finish(Err(Error::ClientError(e))),
                ),
                _ => unreached(),
            },
            Exchange::ReadingBody => match event {
                Event::BodyRead(Ok(body)) => (Exchange::Decoding { body }, Action::Decode),
                Event::BodyRead(Err(e)) => (
                    Exchange::Finished,
                    Action::Finish(Err(Error::ClientError(e))),
                ),
                _ => unreached(),
            },
            Exchange::ReadingRejection { status } => match event {
                Event::BodyRead(Ok(body)) => {
                    let text = body_bytes_to_str(body.as_slice());
                    (Exchange::Finished, Action::Finish(Err(Error::InvalidStatusCode(status, text))))
                },
                Event::BodyRead(Err(e)) => {
                    let d = transport_diagnostic(&e);
                    let mut text = String::from_str("failed to get body: ");
                    text.append(d.as_str());
                    proof {
                        assert(text@ == unread_body_prefix() + d@);
                    }
                    (Exchange::Finished, Action::Finish(Err(Error::InvalidStatusCode(status, text))))
                },
                _ => unreached(),
            },
            Exchange::Decoding { body } => match event {
                Event::Decoded(Ok(value)) => (Exchange::Finished, Action::Finish(Ok(value))),
                Event::Decoded(Err(error)) => {
                    let response_body = body_bytes_to_str(body.as_slice());
                    (
                        Exchange::Finished,
                        Action::Finish(Err(Error::DeserializationError { error, response_body })),
                    )
                },
                _ => unreached(),
            },
            Exchange::Finished => unreached(),
        }
    }
}

/// A response with a success status goes on to have its body decoded,
/// whatever the status and the body are (an empty body after 204 included).
pub proof fn lemma_success_status_decodes_body<Res, Ser>(
    status: u16,
    body: Vec<u8>,
    s1: Exchange,
    a1: Action<Res, Ser>,
    s2: Exchange,
    a2: Action<Res, Ser>,
)
    requires
        success_status(status),
        Exchange::Sending.transition(Event::<Res, Ser>::Responded(Ok(status)), s1, a1),
        s1.transition(Event::<Res, Ser>::BodyRead(Ok(body)), s2, a2),
    ensures
        s2 == (Exchange::Decoding { body }),
        a2 == Action::<Res, Ser>::Decode,
{
}

/// A response with a status outside 200..=299 ends in `InvalidStatusCode`
/// with that status, whatever came of reading its body.
pub proof fn lemma_rejected_status_is_reported<Res, Ser>(
    status: u16,
    read: Result<Vec<u8>, TransportError>,
    s1: Exchange,
    a1: Action<Res, Ser>,
    s2: Exchange,
    a2: Action<Res, Ser>,
)
    requires
        !success_status(status),
        Exchange::Sending.transition(Event::<Res, Ser>::Responded(Ok(status)), s1, a1),
        s1.transition(Event::<Res, Ser>::BodyRead(read), s2, a2),
    ensures
        s2 == Exchange::Finished,
        a2 matches Action::Finish(Err(Error::InvalidStatusCode(s, _))) && s == status,
{
}

/// When the body of a response with a success status does not decode, the
/// outcome carries both the decoder's error and the body as text, and that
/// text is empty only when the body is.
pub proof fn lemma_decode_failure_shows_body<Res, Ser>(
    status: u16,
    body: Vec<u8>,
    error: JsonError,
    s1: Exchange,
    a1: Action<Res, Ser>,
    s2: Exchange,
    a2: Action<Res, Ser>,
    s3: Exchange,
    a3: Action<Res, Ser>,
)
    requires
        success_status(status),
        Exchange::Sending.transition(Event::<Res, Ser>::Responded(Ok(status)), s1, a1),
        s1.transition(Event::<Res, Ser>::BodyRead(Ok(body)), s2, a2),
        s2.transition(Event::<Res, Ser>::Decoded(Err(error)), s3, a3),
    ensures
        a3 matches Action::Finish(Err(Error::DeserializationError { error: e, response_body }))
            && e == error && renders(body@, response_body@) && (body@.len() > 0
            ==> response_body@.len() > 0),
{
}

} // verus!
