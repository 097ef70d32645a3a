use asgi_bridge::body::{Body, MAX_BODY_SIZE};
use asgi_bridge::error::AsgiError;
use asgi_bridge::receive::{HttpReceiver, ReceiveEvent, ReceiveOutcome};
use asgi_bridge::send::{assemble, validate_headers, Field, RawSendEvent, ResponseAssembler, SendEvent};

fn start(status: u16, headers: Vec<(&[u8], &[u8])>) -> SendEvent {
    SendEvent::ResponseStart {
        status,
        headers: headers.into_iter().map(|(n, v)| (n.to_vec(), v.to_vec())).collect(),
    }
}

fn chunk(b: &[u8], more_body: bool) -> SendEvent {
    SendEvent::ResponseBody { body: b.to_vec(), more_body }
}

fn assert_internal_error(r: &asgi_bridge::error::HttpResponse) {
    assert_eq!(r.status, 500);
    assert!(r.headers.is_empty());
    assert_eq!(r.body, b"Internal Server Error".to_vec());
}

#[test]
fn body_before_start_is_internal_error() {
    let r = assemble(vec![chunk(b"secret", false), start(200, vec![])]);
    assert_internal_error(&r);
}

#[test]
fn no_events_is_internal_error() {
    assert_internal_error(&assemble(vec![]));
}

#[test]
fn invalid_first_event_is_internal_error() {
    assert_internal_error(&assemble(vec![SendEvent::Invalid]));
}

#[test]
fn second_start_is_internal_error() {
    assert_internal_error(&assemble(vec![start(200, vec![]), start(200, vec![])]));
}

#[test]
fn chunks_are_concatenated_until_last() {
    let r = assemble(vec![
        start(201, vec![(b"content-type", b"text/plain")]),
        chunk(b"ab", true),
        chunk(b"", true),
        chunk(b"cd", false),
        chunk(b"ignored", false),
        SendEvent::Invalid,
    ]);
    assert_eq!(r.status, 201);
    assert_eq!(r.headers, vec![(b"content-type".to_vec(), b"text/plain".to_vec())]);
    assert_eq!(r.body, b"abcd".to_vec());
}

#[test]
fn closed_channel_while_streaming_ends_body() {
    let r = assemble(vec![start(200, vec![]), chunk(b"part", true)]);
    assert_eq!(r.status, 200);
    assert_eq!(r.body, b"part".to_vec());
}

#[test]
fn start_without_body_gives_empty_body() {
    let r = assemble(vec![start(204, vec![])]);
    assert_eq!(r.status, 204);
    assert!(r.body.is_empty());
}

#[test]
fn response_headers_keep_order_and_duplicates() {
    let r = assemble(vec![
        start(200, vec![(b"set-cookie", b"a=1"), (b"x-y", b"v\tw"), (b"set-cookie", b"b=2")]),
        chunk(b"", false),
    ]);
    assert_eq!(
        r.headers,
        vec![
            (b"set-cookie".to_vec(), b"a=1".to_vec()),
            (b"x-y".to_vec(), b"v\tw".to_vec()),
            (b"set-cookie".to_vec(), b"b=2".to_vec()),
        ]
    );
}

#[test]
fn header_names_pass_unchanged() {
    let r = assemble(vec![
        start(200, vec![(b"Set-Cookie", b"a=1"), (b"X-Custom-Thing", b"1"), (b"A", b"b"), (b"set-cookie", b"c")]),
        chunk(b"", false),
    ]);
    assert_eq!(
        r.headers,
        vec![
            (b"Set-Cookie".to_vec(), b"a=1".to_vec()),
            (b"X-Custom-Thing".to_vec(), b"1".to_vec()),
            (b"A".to_vec(), b"b".to_vec()),
            (b"set-cookie".to_vec(), b"c".to_vec()),
        ]
    );
}

#[test]
fn token_characters_are_valid_header_names() {
    let hs = vec![(b"x-a!#$%&'*+-.^_`|~09AZ".to_vec(), b"v".to_vec())];
    assert!(validate_headers(&hs));
}

#[test]
fn overlong_header_name_is_refused() {
    assert!(validate_headers(&vec![(vec![b'a'; 65535], b"v".to_vec())]));
    assert!(!validate_headers(&vec![(vec![b'a'; 65536], b"v".to_vec())]));
    assert!(!validate_headers(&vec![(b"a:b".to_vec(), b"v".to_vec())]));
    assert!(!validate_headers(&vec![(b"a".to_vec(), b"\x00".to_vec())]));
    assert!(validate_headers(&Vec::new()));
}

fn raw(kind: Field<String>) -> RawSendEvent {
    RawSendEvent { kind, status: Field::Absent, headers: Field::Absent, body: Field::Absent, more_body: Field::Absent }
}

#[test]
fn raw_start_event_is_read() {
    let mut r = raw(Field::Present("http.response.start".to_string()));
    r.status = Field::Present(201);
    r.body = Field::Malformed;
    match SendEvent::from_raw(r) {
        SendEvent::ResponseStart { status, headers } => {
            assert_eq!(status, 201);
            assert!(headers.is_empty());
        }
        other => panic!("unexpected {:?}", other),
    }
    let mut r = raw(Field::Present("http.response.start".to_string()));
    r.status = Field::Present(200);
    r.headers = Field::Present(vec![(b"K".to_vec(), b"v".to_vec())]);
    match SendEvent::from_raw(r) {
        SendEvent::ResponseStart { headers, .. } => assert_eq!(headers, vec![(b"K".to_vec(), b"v".to_vec())]),
        other => panic!("unexpected {:?}", other),
    }
}

#[test]
fn raw_start_without_status_is_invalid() {
    assert!(matches!(SendEvent::from_raw(raw(Field::Present("http.response.start".to_string()))), SendEvent::Invalid));
    let mut r = raw(Field::Present("http.response.start".to_string()));
    r.status = Field::Present(200);
    r.headers = Field::Malformed;
    assert!(matches!(SendEvent::from_raw(r), SendEvent::Invalid));
}

#[test]
fn raw_body_event_defaults() {
    match SendEvent::from_raw(raw(Field::Present("http.response.body".to_string()))) {
        SendEvent::ResponseBody { body, more_body } => {
            assert!(body.is_empty());
            assert!(!more_body);
        }
        other => panic!("unexpected {:?}", other),
    }
    let mut r = raw(Field::Present("http.response.body".to_string()));
    r.body = Field::Present(b"xy".to_vec());
    r.more_body = Field::Present(true);
    match SendEvent::from_raw(r) {
        SendEvent::ResponseBody { body, more_body } => {
            assert_eq!(body, b"xy".to_vec());
            assert!(more_body);
        }
        other => panic!("unexpected {:?}", other),
    }
    let mut r = raw(Field::Present("http.response.body".to_string()));
    r.more_body = Field::Malformed;
    assert!(matches!(SendEvent::from_raw(r), SendEvent::Invalid));
}

#[test]
fn raw_event_of_other_type_is_invalid() {
    assert!(matches!(SendEvent::from_raw(raw(Field::Present("http.request".to_string()))), SendEvent::Invalid));
    assert!(matches!(SendEvent::from_raw(raw(Field::Absent)), SendEvent::Invalid));
    assert!(matches!(SendEvent::from_raw(raw(Field::Malformed)), SendEvent::Invalid));
}

#[test]
fn invalid_header_name_is_internal_error() {
    assert_internal_error(&assemble(vec![start(200, vec![(b"bad name", b"v")]), chunk(b"x", false)]));
    assert_internal_error(&assemble(vec![start(200, vec![(b"", b"v")])]));
}

#[test]
fn invalid_header_value_is_internal_error() {
    assert_internal_error(&assemble(vec![start(200, vec![(b"x", b"a\nb")]), chunk(b"x", false)]));
    assert_internal_error(&assemble(vec![start(200, vec![(b"x", b"\x7f")])]));
}

#[test]
fn out_of_range_status_is_internal_error() {
    assert_internal_error(&assemble(vec![start(1000, vec![]), chunk(b"x", false)]));
    assert_internal_error(&assemble(vec![start(99, vec![]), chunk(b"x", false)]));
    assert_eq!(assemble(vec![start(999, vec![])]).status, 999);
    assert_eq!(assemble(vec![start(100, vec![])]).status, 100);
}

#[test]
fn body_after_start_must_be_chunk() {
    assert_internal_error(&assemble(vec![start(200, vec![]), SendEvent::Invalid]));
}

#[test]
fn assembler_stops_after_last_chunk() {
    let mut a = ResponseAssembler::new();
    assert!(!a.on_event(start(200, vec![])));
    assert!(!a.on_event(chunk(b"1", true)));
    assert!(a.on_event(chunk(b"2", false)));
    let r = a.finish();
    assert_eq!(r.body, b"12".to_vec());
    let mut b = ResponseAssembler::new();
    assert!(b.on_event(chunk(b"x", false)));
}

#[test]
fn echo_round_trip() {
    let payload = b"echo me".to_vec();
    let mut rx = HttpReceiver::new(Body::from_bytes(payload.clone()), MAX_BODY_SIZE);
    let received = match rx.receive(false) {
        ReceiveOutcome::Ready(ReceiveEvent::Request { body, .. }) => body,
        other => panic!("unexpected {:?}", other),
    };
    let r = assemble(vec![start(200, vec![]), SendEvent::ResponseBody { body: received, more_body: false }]);
    assert_eq!(r.status, 200);
    assert_eq!(r.body, payload);
}

#[test]
fn error_kinds_map_to_status_and_text() {
    let client = [
        (AsgiError::InvalidHttpVersion, "Unsupported HTTP version"),
        (AsgiError::InvalidUtf8InPath, "Invalid Utf8 in path"),
    ];
    for (e, text) in client {
        assert!(e.is_client_error());
        assert_eq!(e.status_and_text(), (400, text));
    }
    for e in [
        AsgiError::Application,
        AsgiError::ExpectedResponseStart,
        AsgiError::MissingResponse,
        AsgiError::ExpectedResponseBody,
        AsgiError::FailedToCreateResponse,
        AsgiError::InvalidHeader,
    ] {
        assert!(!e.is_client_error());
        assert_internal_error(&e.into_response());
    }
}
