use lucid::config::{Authentication, Http, ServerSentEvent, Store};
use lucid::router::{
    bearer_token, handle_kv, patch_operation, ApiError, Body, Method, PatchOp, PatchValue, Reply,
    Request, Settings,
};
use lucid::router::{claims_of, lag_warning, stream_event, token_accepted, Received, SseMessage, TokenClaims};
use lucid::store::KvStore;

fn settings() -> Settings {
    Settings {
        authentication: Authentication::default(),
        sse: ServerSentEvent { enabled: true },
        store: Store::default(),
        http: Http::default(),
    }
}

fn float_step(t: String, d: i64) -> Option<Vec<u8>> {
    t.trim().parse::<f64>().ok().map(|v| (v + d as f64).to_string().into_bytes())
}

fn request(method: Method, key: &str, body: &[u8]) -> Request {
    Request {
        method,
        key: key.to_string(),
        authorization: None,
        content_type: None,
        body: body.to_vec(),
        patch: None,
    }
}

fn patch(key: &str, operation: &str, value: Option<&str>) -> Request {
    Request {
        method: Method::Patch,
        key: key.to_string(),
        authorization: None,
        content_type: None,
        body: b"{}".to_vec(),
        patch: Some(PatchValue {
            operation: operation.to_string(),
            value: value.map(|v| v.to_string()),
        }),
    }
}

fn send(store: &mut KvStore, s: &Settings, req: Request) -> Reply {
    handle_kv(store, s, req, float_step)
}

fn message(r: &Reply) -> String {
    match &r.body {
        Body::Message(m) => m.clone(),
        _ => panic!("not a message body"),
    }
}

#[test]
fn set() {
    let mut store = KvStore::new(None);
    let s = settings();
    let r = send(&mut store, &s, request(Method::Put, "foo", b"bar"));
    assert_eq!(r.status, 201);
    assert_eq!(message(&r), "The specified key was successfully created.");
}

#[test]
fn empty_get() {
    let mut store = KvStore::new(None);
    let s = settings();
    let r = send(&mut store, &s, request(Method::Get, "foo", b""));
    assert_eq!(r.status, 404);
}

#[test]
fn set_get() {
    let mut store = KvStore::new(None);
    let s = settings();
    let r = send(&mut store, &s, request(Method::Put, "foo", b"bar"));
    assert_eq!(r.status, 201);
    let r = send(&mut store, &s, request(Method::Get, "foo", b""));
    assert_eq!(r.status, 200);
    match r.body {
        Body::Value { data, .. } => assert_eq!(data, b"bar".to_vec()),
        _ => panic!("no value"),
    }
}

#[test]
fn empty_delete() {
    let mut store = KvStore::new(None);
    let s = settings();
    let r = send(&mut store, &s, request(Method::Delete, "foo", b""));
    assert_eq!(r.status, 404);
}

#[test]
fn set_delete() {
    let mut store = KvStore::new(None);
    let s = settings();
    let r = send(&mut store, &s, request(Method::Put, "foo", b"bar"));
    assert_eq!(r.status, 201);
    let r = send(&mut store, &s, request(Method::Delete, "foo", b""));
    assert_eq!(r.status, 204);
}

#[test]
fn end_to_end_scenario() {
    let mut store = KvStore::new(None);
    let s = settings();
    assert_eq!(send(&mut store, &s, request(Method::Put, "foo", b"bar")).status, 201);
    assert_eq!(send(&mut store, &s, request(Method::Get, "foo", b"")).status, 200);
    assert_eq!(send(&mut store, &s, request(Method::Delete, "foo", b"")).status, 204);
    assert_eq!(send(&mut store, &s, request(Method::Get, "foo", b"")).status, 404);
    assert_eq!(send(&mut store, &s, request(Method::Delete, "foo", b"")).status, 404);
}

#[test]
fn put_created_then_updated_publishes() {
    let mut store = KvStore::new(None);
    let s = settings();
    let r = send(&mut store, &s, request(Method::Put, "foo", b"bar"));
    assert_eq!(r.status, 201);
    let ev = r.event.unwrap();
    assert_eq!(ev.key, "foo");
    assert_eq!(ev.value, "bar");
    let r = send(&mut store, &s, request(Method::Put, "foo", b"baz"));
    assert_eq!(r.status, 200);
    assert_eq!(message(&r), "The specified key was successfully updated.");
    assert_eq!(r.event.unwrap().value, "baz");
    let r = send(&mut store, &s, request(Method::Put, "bin", &[0xff, 0xfe]));
    assert_eq!(r.status, 201);
    assert!(r.event.is_none());
}

#[test]
fn no_events_when_notifications_are_off() {
    let mut store = KvStore::new(None);
    let mut s = settings();
    s.sse.enabled = false;
    let r = send(&mut store, &s, request(Method::Put, "foo", b"bar"));
    assert_eq!(r.status, 201);
    assert!(r.event.is_none());
}

#[test]
fn head_gives_metadata() {
    let mut store = KvStore::new(None);
    let s = settings();
    let mut req = request(Method::Put, "foo", b"bar");
    req.content_type = Some("text/plain".to_string());
    send(&mut store, &s, req);
    let r = send(&mut store, &s, request(Method::Head, "foo", b""));
    assert_eq!(r.status, 200);
    match r.body {
        Body::Meta { mime_type, length, updated_at, last_modified } => {
            assert_eq!(mime_type, "text/plain");
            assert_eq!(length, 3);
            assert!(updated_at > 0);
            let date = last_modified.unwrap();
            assert!(date.ends_with(" GMT"));
            assert_eq!(date.len(), 29);
        }
        _ => panic!("no metadata"),
    }
    assert_eq!(send(&mut store, &s, request(Method::Head, "nope", b"")).status, 404);
}

#[test]
fn put_body_errors() {
    let mut store = KvStore::new(None);
    let mut s = settings();
    let r = send(&mut store, &s, request(Method::Put, "foo", b""));
    assert_eq!(r.status, 400);
    assert_eq!(message(&r), "Missing request body.");
    s.store.max_limit = 10;
    let r = send(&mut store, &s, request(Method::Put, "foo", b"eleven byte"));
    assert_eq!(r.status, 400);
    assert_eq!(message(&r), "The maximum allowed value size is 10 bytes.");
    s.http.request_size_limit = 5;
    let r = send(&mut store, &s, request(Method::Put, "foo", b"sixsix"));
    assert_eq!(r.status, 400);
    assert_eq!(message(&r), "Request payload is too long.");
    assert_eq!(send(&mut store, &s, request(Method::Get, "foo", b"")).status, 404);
}

#[test]
fn locked_key_refuses_put_and_relock() {
    let mut store = KvStore::new(None);
    let s = settings();
    send(&mut store, &s, request(Method::Put, "foo", b"bar"));
    let r = send(&mut store, &s, patch("foo", "LoCk", None));
    assert_eq!(r.status, 200);
    let r = send(&mut store, &s, request(Method::Put, "foo", b"new"));
    assert_eq!(r.status, 403);
    assert!(r.event.is_none());
    let r = send(&mut store, &s, patch("foo", "lock", None));
    assert_eq!(r.status, 409);
    assert_eq!(message(&r), "The specified key is already locked.");
    match send(&mut store, &s, request(Method::Get, "foo", b"")).body {
        Body::Value { data, .. } => assert_eq!(data, b"bar".to_vec()),
        _ => panic!("no value"),
    }
    assert_eq!(send(&mut store, &s, patch("foo", "unlock", None)).status, 200);
    assert_eq!(send(&mut store, &s, patch("foo", "unlock", None)).status, 409);
}

#[test]
fn patch_increment_and_decrement() {
    let mut store = KvStore::new(None);
    let s = settings();
    send(&mut store, &s, request(Method::Put, "n", b"10"));
    let r = send(&mut store, &s, patch("n", "increment", None));
    assert_eq!(r.status, 200);
    assert_eq!(r.event.unwrap().value, "11");
    match send(&mut store, &s, request(Method::Get, "n", b"")).body {
        Body::Value { data, .. } => assert_eq!(data, b"11".to_vec()),
        _ => panic!("no value"),
    }
    assert_eq!(send(&mut store, &s, patch("n", "DECREMENT", None)).status, 200);
    send(&mut store, &s, request(Method::Put, "h", b"hello"));
    let r = send(&mut store, &s, patch("h", "increment", None));
    assert_eq!(r.status, 400);
    assert_eq!(message(&r), "The specified key is not a valid numeric value.");
    match send(&mut store, &s, request(Method::Get, "h", b"")).body {
        Body::Value { data, .. } => assert_eq!(data, b"hello".to_vec()),
        _ => panic!("no value"),
    }
}

#[test]
fn patch_ttl() {
    let mut store = KvStore::new(None);
    let s = settings();
    send(&mut store, &s, request(Method::Put, "k", b"v"));
    let r = send(&mut store, &s, patch("k", "ttl", Some("60")));
    assert_eq!(r.status, 200);
    let m = message(&r);
    assert!(m.starts_with("The expiration is successfully setup, the key will expire at "));
    assert!(m.ends_with(" UTC."));
    let r = send(&mut store, &s, patch("k", "ttl", Some("1.5")));
    assert_eq!(r.status, 400);
    assert_eq!(
        message(&r),
        "Unrecognized value for expiration, you need to use a numeric value without decimal."
    );
    let r = send(&mut store, &s, patch("k", "ttl", None));
    assert_eq!(r.status, 400);
    assert_eq!(message(&r), "Missing value for expiration.");
}

#[test]
fn patch_errors() {
    let mut store = KvStore::new(None);
    let s = settings();
    let r = send(&mut store, &s, patch("missing", "lock", None));
    assert_eq!(r.status, 404);
    assert_eq!(message(&r), "The specified key does not exist.");
    send(&mut store, &s, request(Method::Put, "k", b"v"));
    let r = send(&mut store, &s, patch("k", "explode", None));
    assert_eq!(r.status, 400);
    assert_eq!(message(&r), "Invalid Operation \"explode\".");
    let mut req = patch("k", "lock", None);
    req.patch = None;
    let r = send(&mut store, &s, req);
    assert_eq!(r.status, 400);
    assert_eq!(message(&r), "Malformed request body.");
    let r = send(&mut store, &s, request(Method::Other, "k", b""));
    assert_eq!(r.status, 405);
    assert_eq!(message(&r), "Method not allowed.");
}

#[test]
fn operation_names() {
    assert_eq!(patch_operation(&"lock".to_string()), Some(PatchOp::Lock));
    assert_eq!(patch_operation(&"ttl".to_string()), Some(PatchOp::Ttl));
    assert_eq!(patch_operation(&"LOCK".to_string()), None);
    assert_eq!(patch_operation(&"".to_string()), None);
}

#[test]
fn error_statuses_and_messages() {
    assert_eq!(ApiError::MissingBody.status(), 400);
    assert_eq!(ApiError::MissingAuthHeader.status(), 401);
    assert_eq!(ApiError::MissingAuthHeader.message(), "Missing Authorization header.");
    assert_eq!(ApiError::InvalidJwtToken.status(), 401);
    assert_eq!(ApiError::InvalidJwtToken.message(), "Invalid JWT token in Authorization header.");
    assert_eq!(ApiError::KeyNotFound.status(), 404);
    assert_eq!(ApiError::MethodNotAllowed.status(), 405);
    let p = ApiError::MissingParameter { parameter: "value".to_string() };
    assert_eq!(p.status(), 400);
    assert_eq!(p.message(), "Missing \"value\" parameter.");
    let v = ApiError::ValueSizeLimit { max_limit: 7340032 };
    assert_eq!(v.message(), "The maximum allowed value size is 7340032 bytes.");
}

#[test]
fn auth_gate_without_header() {
    let mut store = KvStore::new(None);
    let mut s = settings();
    s.authentication.enabled = true;
    s.authentication.secret_key = "secret".to_string();
    let r = send(&mut store, &s, request(Method::Put, "foo", b"bar"));
    assert_eq!(r.status, 401);
    assert_eq!(message(&r), "Missing Authorization header.");
    assert_eq!(send(&mut store, &s, request(Method::Get, "foo", b"")).status, 401);
}

#[test]
fn auth_gate_with_tokens() {
    let mut store = KvStore::new(None);
    let mut s = settings();
    s.authentication.enabled = true;
    s.authentication.secret_key = "secret".to_string();
    let token = lucid::token::client_token("secret").unwrap();
    let mut req = request(Method::Put, "foo", b"bar");
    req.authorization = Some(format!("Bearer {}", token));
    assert_eq!(send(&mut store, &s, req).status, 201);
    let other = lucid::token::client_token("another").unwrap();
    let mut req = request(Method::Get, "foo", b"");
    req.authorization = Some(format!("Bearer {}", other));
    let r = send(&mut store, &s, req);
    assert_eq!(r.status, 401);
    assert_eq!(message(&r), "Invalid JWT token in Authorization header.");
    let root = lucid::token::issue_jwt("secret", None).unwrap();
    let mut req = request(Method::Get, "foo", b"");
    req.authorization = Some(format!("Bearer {}", root));
    assert_eq!(send(&mut store, &s, req).status, 200);
    let expired = lucid::token::issue_jwt("secret", Some(1000)).unwrap();
    let mut req = request(Method::Get, "foo", b"");
    req.authorization = Some(format!("Bearer {}", expired));
    assert_eq!(send(&mut store, &s, req).status, 401);
}

#[test]
fn bearer_prefixes_are_stripped() {
    assert_eq!(bearer_token("Bearer abc"), "abc");
    assert_eq!(bearer_token("Bearer Bearer abc"), "abc");
    assert_eq!(bearer_token("abc"), "abc");
    assert_eq!(bearer_token("Bear"), "Bear");
}

#[test]
fn token_claims_must_be_complete() {
    let full = TokenClaims {
        sub: Some("s".to_string()),
        iss: Some("i".to_string()),
        iat: Some(1),
        exp: Some(2),
    };
    let c = claims_of(full.clone()).unwrap();
    assert_eq!(c.sub, "s");
    assert_eq!(c.exp, 2);
    assert!(token_accepted(Some(full.clone())));
    let mut partial = full;
    partial.iss = None;
    assert!(claims_of(partial.clone()).is_none());
    assert!(!token_accepted(Some(partial)));
    assert!(!token_accepted(None));
}

#[test]
fn lock_messages_and_zero_ttl() {
    let mut store = KvStore::new(None);
    let s = settings();
    send(&mut store, &s, request(Method::Put, "k", b"v"));
    let r = send(&mut store, &s, patch("k", "lock", None));
    assert_eq!(message(&r), "The specified key was successfully locked.");
    let r = send(&mut store, &s, request(Method::Put, "k", b"w"));
    assert_eq!(message(&r), "The specified key cannot be updated, it is currently locked.");
    let r = send(&mut store, &s, patch("k", "unlock", None));
    assert_eq!(message(&r), "The specified key was successfully unlocked.");
    let r = send(&mut store, &s, patch("k", "unlock", None));
    assert_eq!(message(&r), "The specified key is not currently locked.");
    assert_eq!(send(&mut store, &s, patch("k", "ttl", Some("0"))).status, 200);
    let r = send(&mut store, &s, patch("k", "ttl", Some("9223372036854775807")));
    assert_eq!(r.status, 400);
    assert_eq!(message(&r), "Unable to set the expiration for the specified key.");
}

#[test]
fn stream_skips_lags() {
    let m = SseMessage { key: "k".to_string(), value: "v".to_string() };
    let e = stream_event(Received::Message(m)).unwrap();
    assert_eq!(e.key, "k");
    assert_eq!(e.value, "v");
    assert!(stream_event(Received::Lagged(3)).is_none());
    assert_eq!(lag_warning(3), "SSE stream lagged, 3 events lost");
}

#[test]
fn ttl_message_carries_instant() {
    let mut store = KvStore::new(None);
    let s = settings();
    send(&mut store, &s, request(Method::Put, "k", b"v"));
    let r = send(&mut store, &s, patch("k", "ttl", Some("3600")));
    assert_eq!(r.status, 200);
    let m = message(&r);
    assert!(m.starts_with("The expiration is successfully setup, the key will expire at 20"));
    assert!(m.ends_with(" UTC."));
}
