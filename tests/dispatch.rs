use http_typed::{
    compose_url, prepare_send, Action, Client, Error, Event, Exchange, HttpMethod,
    InRequestGroup, NoBody, Request, SimpleBody,
};

struct GetX;

impl Request for GetX {
    type Serializer = NoBody;
    type Response = u32;

    fn method(&self) -> HttpMethod {
        HttpMethod::Get
    }

    fn path(&self) -> String {
        "/x".to_string()
    }
}

struct Item(u32);

impl Request for Item {
    type Serializer = NoBody;
    type Response = u32;

    fn method(&self) -> HttpMethod {
        HttpMethod::Delete
    }

    fn path(&self) -> String {
        format!("/items/{}", self.0)
    }
}

struct Named;

impl InRequestGroup<Named> for GetX {}

type Ev = Event<u32, &'static str>;

fn transport_error() -> reqwest::Error {
    reqwest::Client::new().get("not a url").build().unwrap_err()
}

fn json_error() -> serde_json::Error {
    serde_json::from_slice::<u32>(b"oops").unwrap_err()
}

fn transmitted(exchange: Exchange, body: Vec<u8>) -> (HttpMethod, String, Vec<u8>, &'static str) {
    let event: Ev = Event::Encoded(Ok(body));
    assert!(exchange.accepts(&event));
    match exchange.step(event) {
        (Exchange::Sending, Action::Transmit { method, url, body, content_type }) => {
            (method, url, body, content_type)
        },
        _ => panic!("expected a transmission"),
    }
}

fn finish(exchange: Exchange, event: Ev) -> Result<u32, Error<&'static str>> {
    match exchange.step(event) {
        (Exchange::Finished, Action::Finish(outcome)) => outcome,
        _ => panic!("expected the end of the exchange"),
    }
}

#[test]
fn url_is_base_then_path() {
    let client: Client = Client::new("http://h".to_string());
    let (method, url, body, content_type) = transmitted(client.prepare(&GetX), vec![]);
    assert_eq!(method, HttpMethod::Get);
    assert_eq!(url, "http://h/x");
    assert!(body.is_empty());
    assert_eq!(content_type, "application/json");
}

#[test]
fn url_with_infix() {
    let client: Client = Client::new("http://h".to_string());
    let (_, url, _, _) = transmitted(client.prepare_to("/v2", &GetX), vec![]);
    assert_eq!(url, "http://h/v2/x");
}

#[test]
fn url_of_custom_call() {
    let client: Client = Client::new("http://h".to_string());
    let (method, url, _, _) = transmitted(client.prepare_custom("/y/z", HttpMethod::Patch), vec![]);
    assert_eq!(method, HttpMethod::Patch);
    assert_eq!(url, "http://h/y/z");
}

#[test]
fn url_of_one_shot_send() {
    let (method, url, _, _) = transmitted(prepare_send("http://h", &Item(7)), vec![]);
    assert_eq!(method, HttpMethod::Delete);
    assert_eq!(url, "http://h/items/7");
}

#[test]
fn compose_url_concatenates() {
    assert_eq!(compose_url("http://h", "/v2", "/x"), "http://h/v2/x");
    assert_eq!(compose_url("", "", ""), "");
}

#[test]
fn default_client_has_empty_base() {
    let client: Client = Client::default();
    assert_eq!(client.base_url(), "");
    let (_, url, _, _) = transmitted(client.prepare_to("http://h", &GetX), vec![]);
    assert_eq!(url, "http://h/x");
}

#[test]
fn clone_keeps_base_url() {
    let client: Client = Client::new("http://h".to_string());
    let copy = client.clone();
    assert_eq!(copy.base_url(), "http://h");
}

#[test]
fn named_group_accepts_its_member() {
    let client: Client<Named> = Client::new("http://h".to_string());
    let (_, url, _, _) = transmitted(client.prepare(&GetX), vec![]);
    assert_eq!(url, "http://h/x");
}

#[test]
fn encoded_bytes_are_sent_unchanged() {
    let body = b"{\"a\":1}".to_vec();
    let (_, _, sent, _) = transmitted(Exchange::new(HttpMethod::Post, "u".to_string()), body.clone());
    assert_eq!(sent, body);
}

#[test]
fn clones_keep_their_bodies_apart() {
    let client: Client = Client::new("http://h".to_string());
    let other = client.clone();
    let first = client.prepare(&GetX);
    let second = other.prepare(&Item(2));
    let (_, url_two, body_two, _) = transmitted(second, b"two".to_vec());
    let (_, url_one, body_one, _) = transmitted(first, b"one".to_vec());
    assert_eq!((url_one.as_str(), body_one.as_slice()), ("http://h/x", &b"one"[..]));
    assert_eq!((url_two.as_str(), body_two.as_slice()), ("http://h/items/2", &b"two"[..]));
}

#[test]
fn encode_failure_ends_before_sending() {
    let exchange = Exchange::new(HttpMethod::Post, "http://h/x".to_string());
    match finish(exchange, Event::Encoded(Err("bad value"))) {
        Err(Error::SerializationError(e)) => assert_eq!(e, "bad value"),
        _ => panic!("expected a serialization error"),
    }
}

#[test]
fn transport_failure_is_a_client_error() {
    match finish(Exchange::Sending, Event::Responded(Err(transport_error()))) {
        Err(Error::ClientError(_)) => {},
        _ => panic!("expected a client error"),
    }
    match finish(Exchange::ReadingBody, Event::BodyRead(Err(transport_error()))) {
        Err(Error::ClientError(_)) => {},
        _ => panic!("expected a client error"),
    }
}

#[test]
fn status_204_with_empty_body_is_decoded() {
    let (next, action) = Exchange::Sending.step::<u32, &str>(Event::Responded(Ok(204)));
    assert!(matches!(next, Exchange::ReadingBody));
    assert!(matches!(action, Action::ReadBody));
    let (next, action) = next.step::<u32, &str>(Event::BodyRead(Ok(vec![])));
    assert!(matches!(action, Action::Decode));
    match next {
        Exchange::Decoding { body } => assert!(body.is_empty()),
        _ => panic!("expected decoding"),
    }
}

#[test]
fn status_404_is_invalid_whatever_the_body() {
    for body in [b"not found".to_vec(), b"{\"ok\":true}".to_vec(), vec![]] {
        let (next, action) = Exchange::Sending.step::<u32, &str>(Event::Responded(Ok(404)));
        assert!(matches!(next, Exchange::ReadingRejection { status: 404 }));
        assert!(matches!(action, Action::ReadBody));
        let text = String::from_utf8(body.clone()).unwrap();
        match finish(next, Event::BodyRead(Ok(body))) {
            Err(Error::InvalidStatusCode(404, t)) => assert_eq!(t, text),
            _ => panic!("expected an invalid status"),
        }
    }
}

#[test]
fn rejected_body_that_is_not_text() {
    let state = Exchange::ReadingRejection { status: 500 };
    match finish(state, Event::BodyRead(Ok(vec![0xff]))) {
        Err(Error::InvalidStatusCode(500, t)) => {
            assert!(t.starts_with("could not read message body as a string: "))
        },
        _ => panic!("expected an invalid status"),
    }
}

#[test]
fn rejected_body_that_cannot_be_read() {
    let state = Exchange::ReadingRejection { status: 503 };
    match finish(state, Event::BodyRead(Err(transport_error()))) {
        Err(Error::InvalidStatusCode(503, t)) => {
            assert!(t.starts_with("failed to get body: "));
            assert!(t.len() > "failed to get body: ".len());
        },
        _ => panic!("expected an invalid status"),
    }
}

#[test]
fn decode_failure_keeps_error_and_body() {
    let state = Exchange::Decoding { body: b"oops".to_vec() };
    match finish(state, Event::Decoded(Err(json_error()))) {
        Err(Error::DeserializationError { error, response_body }) => {
            assert!(error.is_syntax());
            assert_eq!(response_body, "oops");
        },
        _ => panic!("expected a deserialization error"),
    }
}

#[test]
fn decoded_value_is_the_outcome() {
    let state = Exchange::Decoding { body: b"42".to_vec() };
    match finish(state, Event::Decoded(Ok(42))) {
        Ok(v) => assert_eq!(v, 42),
        _ => panic!("expected a value"),
    }
}

#[test]
fn events_out_of_turn_are_not_accepted() {
    let exchange = Exchange::new(HttpMethod::Get, "u".to_string());
    assert!(!exchange.accepts(&Ev::Responded(Ok(200))));
    assert!(!Exchange::Sending.accepts(&Ev::BodyRead(Ok(vec![]))));
    assert!(!Exchange::Finished.accepts(&Ev::Decoded(Ok(1))));
    assert!(Exchange::ReadingRejection { status: 404 }.accepts(&Ev::BodyRead(Ok(vec![]))));
}

#[test]
fn transport_error_converts_to_client_error() {
    let e: Error<&str> = Error::from(transport_error());
    assert!(matches!(e, Error::ClientError(_)));
}

#[test]
fn simple_body_of_a_request() {
    assert_eq!(GetX.simple_body(), Ok(vec![]));
}
