use assets_env::{
    Env, EnvAssets, ErrorKind, FetchAction, FetchError, FetchState, FetchTable, NativeRequest,
    NativeResponse, RequestBody, ScriptRequest, ScriptResponse,
};

fn request(method: &str, url: &str, headers: &[(&str, &str)], body: Option<&[u8]>) -> ScriptRequest {
    ScriptRequest::new(
        method.to_string(),
        url.to_string(),
        headers.iter().map(|(k, v)| (k.to_string(), v.to_string())).collect(),
        body.map(|b| b.to_vec()),
    )
}

fn drain_of(a: FetchAction) -> Option<Vec<u8>> {
    match a {
        FetchAction::DrainBody(b) => b,
        _ => panic!("expected a body to drain"),
    }
}

fn dispatched(a: FetchAction) -> NativeRequest {
    match a {
        FetchAction::Dispatch(n) => n,
        _ => panic!("expected a dispatch"),
    }
}

fn resolved(a: FetchAction) -> ScriptResponse {
    match a {
        FetchAction::Resolve(r) => r,
        _ => panic!("expected a resolution"),
    }
}

fn rejected(a: FetchAction) -> FetchError {
    match a {
        FetchAction::Reject(e) => e,
        _ => panic!("expected a rejection"),
    }
}

fn hello_response() -> NativeResponse {
    NativeResponse {
        status: 200,
        headers: vec![("content-type".to_string(), b"text/plain".to_vec())],
        body: b"hello".to_vec(),
    }
}

/// Runs a fetch to the point of dispatch, draining the body as it was.
fn to_dispatch(req: &mut ScriptRequest) -> (FetchState, NativeRequest) {
    let env = Env::new_obj();
    let (mut st, a) = env.get_assets().fetch(req);
    let body = drain_of(a);
    let n = dispatched(st.on_body(Ok(body)));
    (st, n)
}

#[test]
fn native_request_keeps_method_url_headers_and_body() {
    let mut req = request(
        "POST",
        "https://example.com/a.txt",
        &[("accept", "text/plain"), ("x-one", "1"), ("x-two", "2")],
        Some(b"payload"),
    );
    let (_, n) = to_dispatch(&mut req);
    assert_eq!(n.method, "POST");
    assert_eq!(n.uri, "https://example.com/a.txt");
    assert_eq!(
        n.headers,
        vec![
            ("accept".to_string(), "text/plain".to_string()),
            ("x-one".to_string(), "1".to_string()),
            ("x-two".to_string(), "2".to_string()),
        ]
    );
    assert_eq!(n.body, b"payload".to_vec());
}

#[test]
fn absent_body_and_no_headers_give_empty_native_request() {
    let mut req = request("GET", "https://example.com/", &[], None);
    let (_, n) = to_dispatch(&mut req);
    assert_eq!(n.method, "GET");
    assert!(n.headers.is_empty());
    assert!(n.body.is_empty());
}

#[test]
fn header_names_take_canonical_form() {
    let mut req = request("GET", "https://example.com/", &[("Content-Type", "a")], None);
    let (_, n) = to_dispatch(&mut req);
    assert_eq!(n.headers, vec![("content-type".to_string(), "a".to_string())]);
}

#[test]
fn second_take_of_body_fails() {
    let mut req = request("GET", "https://example.com/", &[], Some(b""));
    assert_eq!(req.take_body().ok(), Some(Some(Vec::new())));
    assert!(matches!(req.body, RequestBody::Taken));
    assert!(matches!(req.take_body(), Err(FetchError::BodyUsed)));
}

#[test]
fn fetch_of_used_request_rejects() {
    let mut req = request("GET", "https://example.com/", &[], Some(b"x"));
    let assets = Env::new_obj();
    let (_, first) = assets.get_assets().fetch(&mut req);
    assert_eq!(drain_of(first), Some(b"x".to_vec()));
    let (st, second) = assets.get_assets().fetch(&mut req);
    assert!(matches!(st, FetchState::Settled));
    let e = rejected(second);
    assert!(matches!(e, FetchError::BodyUsed));
    assert_eq!(e.message(), "Body has already been used");
}

#[test]
fn bad_method_rejects_without_taking_body() {
    let mut req = request("G E T", "https://example.com/", &[], Some(b"x"));
    let (st, a) = Env::new_obj().get_assets().fetch(&mut req);
    assert!(matches!(st, FetchState::Settled));
    assert!(matches!(rejected(a), FetchError::RequestBuild(_)));
    assert!(matches!(req.body, RequestBody::Bytes(_)));
}

#[test]
fn empty_method_rejects() {
    let mut req = request("", "https://example.com/", &[], None);
    let (_, a) = Env::new_obj().get_assets().fetch(&mut req);
    assert!(matches!(rejected(a), FetchError::RequestBuild(_)));
}

#[test]
fn bad_header_value_rejects() {
    let mut req = request("GET", "https://example.com/", &[("x-a", "a\nb")], None);
    let (_, a) = Env::new_obj().get_assets().fetch(&mut req);
    assert!(matches!(rejected(a), FetchError::RequestBuild(_)));
}

#[test]
fn bad_header_name_rejects() {
    let mut req = request("GET", "https://example.com/", &[("bad name", "a")], None);
    let (_, a) = Env::new_obj().get_assets().fetch(&mut req);
    assert!(matches!(rejected(a), FetchError::RequestBuild(_)));
}

#[test]
fn tab_in_header_value_is_kept() {
    let mut req = request("GET", "https://example.com/", &[("x-a", "a\tb")], None);
    let (_, n) = to_dispatch(&mut req);
    assert_eq!(n.headers[0].1, "a\tb");
}

#[test]
fn relative_target_rejects_after_drain() {
    let mut req = request("GET", "/a.txt", &[], None);
    let (mut st, a) = Env::new_obj().get_assets().fetch(&mut req);
    assert_eq!(drain_of(a), None);
    let e = rejected(st.on_body(Ok(None)));
    assert!(matches!(e, FetchError::RequestBuild(_)));
    assert!(matches!(st, FetchState::Settled));
}

#[test]
fn drain_failure_rejects() {
    let mut req = request("GET", "https://example.com/", &[], Some(b"x"));
    let (mut st, _) = Env::new_obj().get_assets().fetch(&mut req);
    let e = rejected(st.on_body(Err("stream broke".to_string())));
    assert_eq!(e.message(), "stream broke");
}

#[test]
fn dispatcher_failure_message() {
    let mut req = request("GET", "https://example.com/a.txt", &[], None);
    let (mut st, _) = to_dispatch(&mut req);
    let e = rejected(st.on_response(Err("disk error".to_string())));
    assert_eq!(e.message(), "Failed to fetch static asset due to disk error");
    assert_eq!(e.kind(), ErrorKind::Normal);
    assert!(matches!(st, FetchState::Settled));
}

#[test]
fn dispatcher_response_resolves() {
    let mut req = request("GET", "https://example.com/a.txt", &[], None);
    let (mut st, _) = to_dispatch(&mut req);
    assert!(matches!(&st, FetchState::AwaitingResponse(u) if u == "https://example.com/a.txt"));
    let r = resolved(st.on_response(Ok(hello_response())));
    assert_eq!(r.status, 200);
    assert_eq!(r.headers, vec![("content-type".to_string(), "text/plain".to_string())]);
    assert_eq!(r.body, b"hello".to_vec());
    assert_eq!(r.url, "https://example.com/a.txt");
}

#[test]
fn unreadable_response_header_rejects() {
    let mut req = request("GET", "https://example.com/a.txt", &[], None);
    let (mut st, _) = to_dispatch(&mut req);
    let resp = NativeResponse {
        status: 200,
        headers: vec![
            ("content-type".to_string(), b"text/plain".to_vec()),
            ("x-bad".to_string(), vec![0xff]),
            ("x-worse".to_string(), vec![0x01]),
        ],
        body: Vec::new(),
    };
    let e = rejected(st.on_response(Ok(resp)));
    assert_eq!(e.message(), "Response header cannot be read as text: x-bad");
}

#[test]
fn concurrent_fetches_stay_apart() {
    let env = Env::new_obj();
    let mut table = FetchTable::new();
    let mut r1 = request("POST", "https://example.com/one", &[], Some(b"first"));
    let mut r2 = request("POST", "https://example.com/two", &[], Some(b"second"));
    let (i1, a1) = table.start(env.get_assets(), &mut r1);
    let (i2, a2) = table.start(env.get_assets(), &mut r2);
    assert_eq!((i1, i2), (0, 1));
    let n2 = dispatched(table.deliver_body(i2, Ok(drain_of(a2))));
    let n1 = dispatched(table.deliver_body(i1, Ok(drain_of(a1))));
    assert_eq!(n1.body, b"first".to_vec());
    assert_eq!(n2.body, b"second".to_vec());
    let mut second = hello_response();
    second.body = b"two".to_vec();
    let s2 = resolved(table.deliver_response(i2, Ok(second)));
    assert!(matches!(&table.fetches[0], FetchState::AwaitingResponse(u) if u == "https://example.com/one"));
    let s1 = resolved(table.deliver_response(i1, Ok(hello_response())));
    assert_eq!(s1.url, "https://example.com/one");
    assert_eq!(s1.body, b"hello".to_vec());
    assert_eq!(s2.url, "https://example.com/two");
    assert_eq!(s2.body, b"two".to_vec());
}

#[test]
fn fetch_returns_pending_state_before_outcome() {
    let mut req = request("GET", "https://example.com/a.txt", &[], None);
    let (st, a) = Env::new_obj().get_assets().fetch(&mut req);
    assert!(matches!(st, FetchState::AwaitingBody(_)));
    assert!(matches!(a, FetchAction::DrainBody(None)));
}

#[test]
fn capabilities_cannot_be_constructed() {
    let e = Env::constructor().err().unwrap();
    assert_eq!(e.kind, ErrorKind::Type);
    assert_eq!(e.message, "Cannot construct this type");
    let e = EnvAssets::constructor().err().unwrap();
    assert_eq!(e.kind, ErrorKind::Type);
    assert_eq!(e.message, "Cannot construct this type");
}

#[test]
fn response_url_is_the_parsed_absolute_url() {
    let mut req = request("GET", "https://example.com/a/../b.txt", &[], None);
    let (mut st, n) = to_dispatch(&mut req);
    assert_eq!(n.uri, "https://example.com/a/../b.txt");
    let r = resolved(st.on_response(Ok(hello_response())));
    assert_eq!(r.url, "https://example.com/b.txt");
}
