//! The request contract: the authorization gate, size limits, the mapping of
//! HTTP verbs and PATCH operations onto the store, status codes, error
//! bodies and change events.
use crate::config::{Authentication, Claims, Http, ServerSentEvent, Store};
use crate::store::{
    EntryView, KvStore, expired, expiry, prior, set_entry, touched, with_lock, with_payload,
};
use crate::text::{
    MAX_INSTANT, decimal, decimal_text, http_date, http_date_text, integer_of, lower_of, lowercase,
    now_seconds, parse_i64, utc_display, utc_text, utf8_text,
};
use jsonwebtoken::{DecodingKey, Validation};
use vstd::prelude::*;
use vstd::string::StringExecFns;
use vstd::utf8::{decode_utf8, valid_utf8};

verus! {

/// Relies on jsonwebtoken's `decode` with the default validation (HS256,
/// expiry checked against the clock): `None` unless the token is signed with
/// the secret and unexpired; then its `sub`, `iss` (as strings) and `iat`,
/// `exp` (as `i64`) claims, each `None` where absent or of another type.
/// Nothing more is promised, as the answer depends on time.
#[verifier::external_body]
fn jwt_decode(token: &str, secret: &str) -> (r: Option<TokenClaims>) {
    let key = DecodingKey::from_secret(secret.as_bytes());
    let data = jsonwebtoken::decode::<serde_json::Map<String, serde_json::Value>>(
        token,
        &key,
        &Validation::default(),
    ).ok()?;
    let text = |k: &str| data.claims.get(k).and_then(|v| v.as_str()).map(String::from);
    let number = |k: &str| data.claims.get(k).and_then(|v| v.as_i64());
    Some(TokenClaims { sub: text("sub"), iss: text("iss"), iat: number("iat"), exp: number("exp") })
}

/// The claims that a checked token carries, each as found or `None`.
#[derive(Clone, Debug)]
pub struct TokenClaims {
    pub sub: Option<String>,
    pub iss: Option<String>,
    pub iat: Option<i64>,
    pub exp: Option<i64>,
}

/// The claims of an access token, when all four are present.
pub fn claims_of(t: TokenClaims) -> (r: Option<Claims>)
    ensures
        r is Some <==> t.sub is Some && t.iss is Some && t.iat is Some && t.exp is Some,
        r matches Some(c) ==> Some(c.sub) == t.sub && Some(c.iss) == t.iss && Some(c.iat)
            == t.iat && Some(c.exp) == t.exp,
{
    match (t.sub, t.iss, t.iat, t.exp) {
        (Some(sub), Some(iss), Some(iat), Some(exp)) => Some(Claims { sub, iss, iat, exp }),
        _ => None,
    }
}

/// Whether a decoded token is accepted: it checked, and carries all claims.
pub fn token_accepted(decoded: Option<TokenClaims>) -> (r: bool)
    ensures
        r == (decoded matches Some(t) && t.sub is Some && t.iss is Some && t.iat is Some
            && t.exp is Some),
{
    match decoded {
        Some(t) => claims_of(t).is_some(),
        None => false,
    }
}

/// Messages of the replies that are not errors.
pub const MSG_CREATED: &'static str = "The specified key was successfully created.";
pub const MSG_UPDATED: &'static str = "The specified key was successfully updated.";
pub const MSG_LOCKED: &'static str = "The specified key cannot be updated, it is currently locked.";
pub const MSG_LOCK_DONE: &'static str = "The specified key was successfully locked.";
pub const MSG_ALREADY_LOCKED: &'static str = "The specified key is already locked.";
pub const MSG_UNLOCK_DONE: &'static str = "The specified key was successfully unlocked.";
pub const MSG_NOT_LOCKED: &'static str = "The specified key is not currently locked.";
pub const MSG_INCREMENTED: &'static str = "The specified key was successfully incremented.";
pub const MSG_DECREMENTED: &'static str = "The specified key was successfully decremented.";
pub const MSG_NOT_NUMERIC: &'static str = "The specified key is not a valid numeric value.";
pub const MSG_EXPIRE_AT: &'static str = "The expiration is successfully setup, the key will expire at ";
pub const MSG_EXPIRE_SET: &'static str = "The expiration is successfully setup.";
pub const MSG_EXPIRE_FAILED: &'static str = "Unable to set the expiration for the specified key.";
pub const MSG_TTL_NOT_INTEGER: &'static str =
    "Unrecognized value for expiration, you need to use a numeric value without decimal.";
pub const MSG_TTL_MISSING: &'static str = "Missing value for expiration.";

/// An HTTP verb, as far as the key routes tell them apart.
#[derive(Clone, Copy, Debug, PartialEq, Eq, Structural)]
pub enum Method {
    Get,
    Head,
    Put,
    Delete,
    Patch,
    Other,
}

/// The JSON body of a PATCH request.
#[derive(Clone, Debug)]
pub struct PatchValue {
    pub operation: String,
    pub value: Option<String>,
}

/// A PATCH operation.
#[derive(Clone, Copy, Debug, PartialEq, Eq, Structural)]
pub enum PatchOp {
    Lock,
    Unlock,
    Increment,
    Decrement,
    Ttl,
}

/// A change event: the key and its new value as text.
#[derive(Clone, Debug)]
pub struct SseMessage {
    pub key: String,
    pub value: String,
}

/// The failures that a request can meet, each with its status and message.
#[derive(Clone, Debug)]
pub enum ApiError {
    MissingBody,
    MissingParameter { parameter: String },
    MissingAuthHeader,
    KeyNotFound,
    InvalidOperation { operation: String },
    InvalidJwtToken,
    ValueSizeLimit { max_limit: u64 },
    PayloadTooLarge,
    MalformedBody,
    MethodNotAllowed,
}

/// The status code of an error.
pub open spec fn error_status(e: ApiError) -> u16 {
    match e {
        ApiError::MissingAuthHeader | ApiError::InvalidJwtToken => 401,
        ApiError::KeyNotFound => 404,
        ApiError::MethodNotAllowed => 405,
        _ => 400,
    }
}

/// The message of an error.
pub open spec fn error_message(e: ApiError) -> Seq<char> {
    match e {
        ApiError::MissingBody => "Missing request body."@,
        ApiError::MissingParameter { parameter } => "Missing \""@ + parameter@
            + "\" parameter."@,
        ApiError::MissingAuthHeader => "Missing Authorization header."@,
        ApiError::KeyNotFound => "The specified key does not exist."@,
        ApiError::InvalidOperation { operation } => "Invalid Operation \""@ + operation@ + "\"."@,
        ApiError::InvalidJwtToken => "Invalid JWT token in Authorization header."@,
        ApiError::ValueSizeLimit { max_limit } => "The maximum allowed value size is "@ + decimal(
            max_limit as nat,
        ) + " bytes."@,
        ApiError::PayloadTooLarge => "Request payload is too long."@,
        ApiError::MalformedBody => "Malformed request body."@,
        ApiError::MethodNotAllowed => "Method not allowed."@,
    }
}

impl ApiError {
    pub fn status(&self) -> (r: u16)
        ensures
            r == error_status(*self),
    {
        match self {
            ApiError::MissingAuthHeader | ApiError::InvalidJwtToken => 401,
            ApiError::KeyNotFound => 404,
            ApiError::MethodNotAllowed => 405,
            _ => 400,
        }
    }

    /// The human-readable message, as the JSON error body carries it.
    pub fn message(&self) -> (r: String)
        ensures
            r@ == error_message(*self),
    {
        match self {
            ApiError::MissingBody => "Missing request body.".to_owned(),
            ApiError::MissingParameter { parameter } => "Missing \"".to_owned().concat(
                parameter.as_str(),
            ).concat("\" parameter."),
            ApiError::MissingAuthHeader => "Missing Authorization header.".to_owned(),
            ApiError::KeyNotFound => "The specified key does not exist.".to_owned(),
            ApiError::InvalidOperation { operation } => "Invalid Operation \"".to_owned().concat(
                operation.as_str(),
            ).concat("\"."),
            ApiError::InvalidJwtToken => "Invalid JWT token in Authorization header.".to_owned(),
            ApiError::ValueSizeLimit { max_limit } => {
                let n = decimal_text(*max_limit);
                "The maximum allowed value size is ".to_owned().concat(n.as_str()).concat(
                    " bytes.",
                )
            },
            ApiError::PayloadTooLarge => "Request payload is too long.".to_owned(),
            ApiError::MalformedBody => "Malformed request body.".to_owned(),
            ApiError::MethodNotAllowed => "Method not allowed.".to_owned(),
        }
    }
}

/// What a response carries.
#[derive(Clone, Debug)]
pub enum Body {
    /// A JSON body `{"message": ...}`.
    Message(String),
    /// A stored value, with its content type.
    Value { data: Vec<u8>, mime_type: String },
    /// Metadata only: content type, length and last update (seconds since
    /// the Unix epoch, and as an HTTP date where chrono can hold it).
    Meta { mime_type: String, length: usize, updated_at: i64, last_modified: Option<String> },
    /// Nothing.
    Empty,
}

/// A response, and the change event that it publishes, if any.
#[derive(Clone, Debug)]
pub struct Reply {
    pub status: u16,
    pub body: Body,
    pub event: Option<SseMessage>,
}

/// Whether `r` carries a message whose text is `m`.
pub open spec fn says(r: Reply, m: Seq<char>) -> bool {
    r.body matches Body::Message(t) && t@ == m
}

/// The response for an error.
pub fn error_reply(e: ApiError) -> (r: Reply)
    ensures
        r.status == error_status(e),
        says(r, error_message(e)),
        r.event is None,
{
    Reply { status: e.status(), body: Body::Message(e.message()), event: None }
}

fn message_reply(status: u16, text: &str) -> (r: Reply)
    ensures
        r.status == status,
        says(r, text@),
        r.event is None,
{
    Reply { status, body: Body::Message(text.to_owned()), event: None }
}

/// The settings that the request contract reads.
#[derive(Clone, Debug)]
pub struct Settings {
    pub authentication: Authentication,
    pub sse: ServerSentEvent,
    pub store: Store,
    pub http: Http,
}

/// The authorization decision, given whether authentication is on, whether
/// the request carries an Authorization header, and whether its token checks.
pub fn auth_gate(enabled: bool, header_present: bool, token_valid: bool) -> (r: Result<(), ApiError>)
    ensures
        !enabled ==> r is Ok,
        enabled && !header_present ==> r == Err::<(), ApiError>(ApiError::MissingAuthHeader),
        enabled && header_present && token_valid ==> r is Ok,
        enabled && header_present && !token_valid ==> r == Err::<(), ApiError>(
            ApiError::InvalidJwtToken,
        ),
{
    if !enabled {
        Ok(())
    } else if !header_present {
        Err(ApiError::MissingAuthHeader)
    } else if token_valid {
        Ok(())
    } else {
        Err(ApiError::InvalidJwtToken)
    }
}

/// `s` without any number of leading "Bearer " prefixes.
pub open spec fn without_bearer(s: Seq<char>) -> Seq<char>
    decreases s.len(),
{
    if s.len() >= 7 && s.subrange(0, 7) == "Bearer "@ {
        without_bearer(s.subrange(7, s.len() as int))
    } else {
        s
    }
}

/// The token of an Authorization header: the text after its leading
/// "Bearer " prefixes.
pub fn bearer_token(header: &str) -> (r: String)
    ensures
        r@ == without_bearer(header@),
{
    let prefix = "Bearer ".to_owned();
    proof {
        reveal_strlit("Bearer ");
    }
    let mut rest = header.to_owned();
    let mut done = false;
    while !done
        invariant
            prefix@ == "Bearer "@,
            prefix@.len() == 7,
            without_bearer(rest@) == without_bearer(header@),
            done ==> without_bearer(rest@) == rest@,
        decreases rest@.len() + if done { 0int } else { 1int },
    {
        let n = rest.as_str().unicode_len();
        if n < 7 {
            done = true;
        } else {
            let head = rest.as_str().substring_char(0, 7).to_owned();
            if head != prefix {
                done = true;
            } else {
                let tail = rest.as_str().substring_char(7, n).to_owned();
                rest = tail;
            }
        }
    }
    rest
}

/// The authorization step: passes when authentication is off; otherwise asks
/// for an Authorization header whose bearer token is signed with the secret,
/// unexpired, and carries all four claims.
pub fn verify_auth(auth: &Authentication, header: Option<String>) -> (r: Result<(), ApiError>)
    ensures
        !auth.enabled ==> r is Ok,
        auth.enabled && header is None ==> r == Err::<(), ApiError>(ApiError::MissingAuthHeader),
        auth.enabled && header is Some ==> r is Ok || r == Err::<(), ApiError>(
            ApiError::InvalidJwtToken,
        ),
{
    match header {
        Some(h) => {
            let valid = if auth.enabled {
                let token = bearer_token(h.as_str());
                token_accepted(jwt_decode(token.as_str(), auth.secret_key.as_str()))
            } else {
                true
            };
            auth_gate(auth.enabled, true, valid)
        },
        None => auth_gate(auth.enabled, false, false),
    }
}

/// Whether a key's entry exists and is locked.
pub open spec fn locked_in(m: Map<Seq<char>, EntryView>, key: Seq<char>) -> bool {
    m.contains_key(key) && m[key].locked
}

/// Whether a PUT body of `len` bytes is accepted: not empty and within both
/// the request limit and the value limit.
pub open spec fn size_ok(len: nat, s: Settings) -> bool {
    0 < len && len <= s.http.request_size_limit && len <= s.store.max_limit
}

/// The status of a PUT.
pub open spec fn put_status(m: Map<Seq<char>, EntryView>, key: Seq<char>, len: nat, s: Settings) -> u16 {
    if !size_ok(len, s) {
        400
    } else if !m.contains_key(key) {
        201
    } else if m[key].locked {
        403
    } else {
        200
    }
}

/// What a GET gives: the value and its content type, or 404.
pub open spec fn get_outcome(m: Map<Seq<char>, EntryView>, key: Seq<char>, r: Reply) -> bool {
    &&& r.event is None
    &&& m.contains_key(key) ==> r.status == 200 && (r.body matches Body::Value { data, mime_type }
        && data@ == m[key].data && mime_type@ == m[key].mime_type)
    &&& !m.contains_key(key) ==> r.status == 404 && says(r, error_message(ApiError::KeyNotFound))
}

/// What a HEAD gives: the metadata of the value, or 404.
pub open spec fn head_outcome(m: Map<Seq<char>, EntryView>, key: Seq<char>, r: Reply) -> bool {
    &&& r.event is None
    &&& m.contains_key(key) ==> r.status == 200 && (r.body matches Body::Meta {
        mime_type,
        length,
        updated_at,
        last_modified,
    } && mime_type@ == m[key].mime_type && length == m[key].data.len() && updated_at
        == m[key].updated_at && (last_modified matches Some(t) ==> t@ == http_date_text(
        updated_at as int,
    )) && (0 <= updated_at <= MAX_INSTANT ==> last_modified is Some))
    &&& !m.contains_key(key) ==> r.status == 404 && says(r, error_message(ApiError::KeyNotFound))
}

/// What a DELETE does: removes an existing key with 204, or answers 404.
pub open spec fn delete_outcome(
    m: Map<Seq<char>, EntryView>,
    after: Map<Seq<char>, EntryView>,
    key: Seq<char>,
    r: Reply,
) -> bool {
    &&& r.event is None
    &&& after == m.remove(key)
    &&& m.contains_key(key) ==> r.status == 204 && r.body is Empty
    &&& !m.contains_key(key) ==> r.status == 404 && says(r, error_message(ApiError::KeyNotFound))
}

/// What a PUT does: sets the key when the body is accepted, and publishes
/// the value as text when notifications are on, the value is UTF-8 and the
/// entry was not locked.
pub open spec fn put_outcome(
    store: KvStore,
    after: Map<Seq<char>, EntryView>,
    s: Settings,
    key: Seq<char>,
    body: Seq<u8>,
    mime: Option<Seq<char>>,
    r: Reply,
) -> bool {
    let m = store@;
    &&& r.status == put_status(m, key, body.len(), s)
    &&& body.len() == 0 ==> says(r, error_message(ApiError::MissingBody))
    &&& 0 < body.len() && body.len() > s.http.request_size_limit ==> says(
        r,
        error_message(ApiError::PayloadTooLarge),
    )
    &&& 0 < body.len() <= s.http.request_size_limit && body.len() > s.store.max_limit ==> says(
        r,
        error_message(ApiError::ValueSizeLimit { max_limit: s.store.max_limit }),
    )
    &&& !size_ok(body.len(), s) ==> after == m
    &&& size_ok(body.len(), s) ==> after == m.insert(
        key,
        set_entry(prior(m, key), store.readback(body), after[key].mime_type, after[key].updated_at),
    )
    &&& size_ok(body.len(), s) && !locked_in(m, key) && mime is Some ==> after[key].mime_type
        == mime->Some_0
    &&& r.event is Some <==> size_ok(body.len(), s) && s.sse.enabled && valid_utf8(body)
        && !locked_in(m, key)
    &&& r.event matches Some(ev) ==> ev.key@ == key && ev.value@ == decode_utf8(body)
    &&& size_ok(body.len(), s) && !m.contains_key(key) ==> says(r, MSG_CREATED@)
    &&& size_ok(body.len(), s) && m.contains_key(key) && !m[key].locked ==> says(r, MSG_UPDATED@)
    &&& size_ok(body.len(), s) && locked_in(m, key) ==> says(r, MSG_LOCKED@)
}

/// The operation that a lowercased name stands for.
pub open spec fn op_named(s: Seq<char>) -> Option<PatchOp> {
    if s == "lock"@ {
        Some(PatchOp::Lock)
    } else if s == "unlock"@ {
        Some(PatchOp::Unlock)
    } else if s == "increment"@ {
        Some(PatchOp::Increment)
    } else if s == "decrement"@ {
        Some(PatchOp::Decrement)
    } else if s == "ttl"@ {
        Some(PatchOp::Ttl)
    } else {
        None
    }
}

/// The operation named by an already lowercased text.
pub fn patch_operation(lowered: &String) -> (r: Option<PatchOp>)
    ensures
        r == op_named(lowered@),
{
    if *lowered == "lock".to_owned() {
        Some(PatchOp::Lock)
    } else if *lowered == "unlock".to_owned() {
        Some(PatchOp::Unlock)
    } else if *lowered == "increment".to_owned() {
        Some(PatchOp::Increment)
    } else if *lowered == "decrement".to_owned() {
        Some(PatchOp::Decrement)
    } else if *lowered == "ttl".to_owned() {
        Some(PatchOp::Ttl)
    } else {
        None
    }
}

/// The value of a GET of `key`.
pub fn get_key(store: &KvStore, key: String) -> (r: Reply)
    requires
        store.wf(),
    ensures
        get_outcome(store@, key@, r),
{
    match store.get(key) {
        Some(e) => Reply {
            status: 200,
            body: Body::Value { data: e.data, mime_type: e.mime_type },
            event: None,
        },
        None => error_reply(ApiError::KeyNotFound),
    }
}

/// The metadata of a HEAD of `key`.
pub fn find_key(store: &KvStore, key: String) -> (r: Reply)
    requires
        store.wf(),
    ensures
        head_outcome(store@, key@, r),
{
    match store.get(key) {
        Some(e) => Reply {
            status: 200,
            body: Body::Meta {
                mime_type: e.mime_type,
                length: e.data.len(),
                updated_at: e.updated_at,
                last_modified: http_date(e.updated_at),
            },
            event: None,
        },
        None => error_reply(ApiError::KeyNotFound),
    }
}

/// A DELETE of `key`.
pub fn delete_key(store: &mut KvStore, key: String) -> (r: Reply)
    requires
        old(store).wf(),
    ensures
        final(store).wf(),
        final(store).encrypted() == old(store).encrypted(),
        delete_outcome(old(store)@, final(store)@, key@, r),
{
    let k = key.clone();
    match store.get(key) {
        Some(_) => {
            store.drop(k);
            Reply { status: 204, body: Body::Empty, event: None }
        },
        None => {
            assert(old(store)@.remove(key@) =~= old(store)@);
            error_reply(ApiError::KeyNotFound)
        },
    }
}

/// A PUT of `body` under `key`, with an optional declared content type.
pub fn put_key(
    store: &mut KvStore,
    settings: &Settings,
    key: String,
    body: Vec<u8>,
    mime: Option<String>,
) -> (r: Reply)
    requires
        old(store).wf(),
    ensures
        final(store).wf(),
        final(store).encrypted() == old(store).encrypted(),
        put_outcome(
            *old(store),
            final(store)@,
            *settings,
            key@,
            body@,
            match mime {
                Some(m) => Some(m@),
                None => None,
            },
            r,
        ),
{
    let len = body.len() as u64;
    if body.len() == 0 {
        return error_reply(ApiError::MissingBody);
    }
    if len > settings.http.request_size_limit {
        return error_reply(ApiError::PayloadTooLarge);
    }
    if len > settings.store.max_limit {
        return error_reply(ApiError::ValueSizeLimit { max_limit: settings.store.max_limit });
    }
    let copy = body.clone();
    assert(copy@ =~= body@);
    let k = key.clone();
    match store.set(key, body, mime) {
        Some(before) => {
            if before.locked {
                message_reply(403, MSG_LOCKED)
            } else {
                let mut r = message_reply(200, MSG_UPDATED);
                if settings.sse.enabled {
                    r.event = match utf8_text(copy) {
                        Some(value) => Some(SseMessage { key: k, value }),
                        None => None,
                    };
                }
                r
            }
        },
        None => {
            let mut r = message_reply(201, MSG_CREATED);
            if settings.sse.enabled {
                r.event = match utf8_text(copy) {
                    Some(value) => Some(SseMessage { key: k, value }),
                    None => None,
                };
            }
            r
        },
    }
}

/// What a lock (`to_lock`) or unlock PATCH does to an existing key: 200 when
/// the lock state changes, 409 when it is already so.
pub open spec fn lock_outcome(
    m: Map<Seq<char>, EntryView>,
    after: Map<Seq<char>, EntryView>,
    key: Seq<char>,
    to_lock: bool,
    r: Reply,
) -> bool {
    &&& r.event is None
    &&& m[key].locked != to_lock ==> r.status == 200 && after == m.insert(
        key,
        touched(with_lock(m[key], to_lock), after[key].updated_at),
    )
    &&& m[key].locked == to_lock ==> r.status == 409 && after == m
    &&& m[key].locked != to_lock && to_lock ==> says(r, MSG_LOCK_DONE@)
    &&& m[key].locked != to_lock && !to_lock ==> says(r, MSG_UNLOCK_DONE@)
    &&& m[key].locked == to_lock && to_lock ==> says(r, MSG_ALREADY_LOCKED@)
    &&& m[key].locked == to_lock && !to_lock ==> says(r, MSG_NOT_LOCKED@)
}

/// What an increment or decrement PATCH does to an existing key: 200 with
/// the payload that `step` computed, or 400 with nothing changed; the new
/// text is published when notifications are on.
pub open spec fn numeric_outcome<F: Fn(String, i64) -> Option<Vec<u8>>>(
    store: KvStore,
    after: Map<Seq<char>, EntryView>,
    sse: bool,
    key: Seq<char>,
    delta: i64,
    step: F,
    r: Reply,
) -> bool {
    let m = store@;
    &&& r.status == 200 || r.status == 400
    &&& !valid_utf8(m[key].data) ==> r.status == 400
    &&& r.status == 400 ==> after == m && r.event is None
    &&& r.status == 200 ==> exists|t: String, b: Vec<u8>|
        t@ == decode_utf8(m[key].data) && step.ensures((t, delta), Some(b)) && after == m.insert(
            key,
            touched(with_payload(m[key], store.readback(b@), m[key].mime_type), after[key].updated_at),
        )
    &&& r.event is Some <==> r.status == 200 && sse && valid_utf8(after[key].data)
    &&& r.event matches Some(ev) ==> ev.key@ == key && ev.value@ == decode_utf8(after[key].data)
    &&& r.status == 400 && valid_utf8(m[key].data) ==> exists|t: String|
        t@ == decode_utf8(m[key].data) && step.ensures((t, delta), None)
    &&& r.status == 400 ==> says(r, MSG_NOT_NUMERIC@)
    &&& r.status == 200 && delta > 0 ==> says(r, MSG_INCREMENTED@)
    &&& r.status == 200 && delta <= 0 ==> says(r, MSG_DECREMENTED@)
}

/// The message of a successful ttl PATCH that expires at `at`.
pub open spec fn expire_message(at: i64) -> Seq<char> {
    MSG_EXPIRE_AT@ + utc_text(at as int) + "."@
}

/// What a ttl PATCH of `ttl` seconds, handled at `now`, does to an existing
/// key: 200 with the expiration set, or 400 with nothing changed when the
/// instant is out of range.
pub open spec fn ttl_applied(
    m: Map<Seq<char>, EntryView>,
    after: Map<Seq<char>, EntryView>,
    key: Seq<char>,
    now: i64,
    ttl: i64,
    r: Reply,
) -> bool {
    match expiry(m, key, now, ttl) {
        Some(at) => r.status == 200 && after == m.insert(key, expired(m[key], now, at)) && (says(
            r,
            expire_message(at),
        ) || says(r, MSG_EXPIRE_SET@)) && (0 <= at <= MAX_INSTANT ==> says(r, expire_message(at))),
        None => r.status == 400 && says(r, MSG_EXPIRE_FAILED@) && after == m,
    }
}

/// What a ttl PATCH does to an existing key: 400 without an integer value;
/// otherwise what setting the expiration at the time of the call does.
pub open spec fn ttl_outcome(
    m: Map<Seq<char>, EntryView>,
    after: Map<Seq<char>, EntryView>,
    key: Seq<char>,
    value: Option<String>,
    r: Reply,
) -> bool {
    &&& r.event is None
    &&& value is None ==> r.status == 400 && says(r, MSG_TTL_MISSING@) && after == m
    &&& (value matches Some(v) && integer_of(v@) is None) ==> r.status == 400 && says(
        r,
        MSG_TTL_NOT_INTEGER@,
    ) && after == m
    &&& (value matches Some(v) && integer_of(v@) is Some) ==> {
        let ttl = integer_of(value->Some_0@)->Some_0 as i64;
        &&& exists|now: i64| 0 <= now <= MAX_INSTANT && #[trigger] ttl_applied(m, after, key, now, ttl, r)
        &&& ttl <= i64::MAX - MAX_INSTANT ==> r.status == 200
    }
}

/// What a PATCH does: 404 for a missing key, 400 for an operation name that
/// is none of lock, unlock, increment, decrement and ttl in any case, and
/// otherwise what the operation does.
pub open spec fn patch_outcome<F: Fn(String, i64) -> Option<Vec<u8>>>(
    store: KvStore,
    after: Map<Seq<char>, EntryView>,
    sse: bool,
    key: Seq<char>,
    patch: PatchValue,
    step: F,
    r: Reply,
) -> bool {
    let m = store@;
    let op = op_named(lower_of(patch.operation@));
    &&& !m.contains_key(key) ==> r.status == 404 && says(r, error_message(ApiError::KeyNotFound))
        && after == m && r.event is None
    &&& m.contains_key(key) && op is None ==> r.status == 400 && says(
        r,
        error_message(ApiError::InvalidOperation { operation: patch.operation }),
    ) && after == m && r.event is None
    &&& m.contains_key(key) && op == Some(PatchOp::Lock) ==> lock_outcome(m, after, key, true, r)
    &&& m.contains_key(key) && op == Some(PatchOp::Unlock) ==> lock_outcome(
        m,
        after,
        key,
        false,
        r,
    )
    &&& m.contains_key(key) && op == Some(PatchOp::Increment) ==> numeric_outcome(
        store,
        after,
        sse,
        key,
        1,
        step,
        r,
    )
    &&& m.contains_key(key) && op == Some(PatchOp::Decrement) ==> numeric_outcome(
        store,
        after,
        sse,
        key,
        -1i64,
        step,
        r,
    )
    &&& m.contains_key(key) && op == Some(PatchOp::Ttl) ==> ttl_outcome(
        m,
        after,
        key,
        patch.value,
        r,
    )
}

fn lock_key(store: &mut KvStore, key: String, to_lock: bool) -> (r: Reply)
    requires
        old(store).wf(),
        old(store)@.contains_key(key@),
    ensures
        final(store).wf(),
        final(store).encrypted() == old(store).encrypted(),
        lock_outcome(old(store)@, final(store)@, key@, to_lock, r),
{
    let changed = store.switch_lock(key, to_lock);
    if to_lock {
        if changed {
            message_reply(200, MSG_LOCK_DONE)
        } else {
            message_reply(409, MSG_ALREADY_LOCKED)
        }
    } else {
        if changed {
            message_reply(200, MSG_UNLOCK_DONE)
        } else {
            message_reply(409, MSG_NOT_LOCKED)
        }
    }
}

fn step_key<F: Fn(String, i64) -> Option<Vec<u8>>>(
    store: &mut KvStore,
    sse: bool,
    key: String,
    delta: i64,
    step: F,
) -> (r: Reply)
    requires
        old(store).wf(),
        old(store)@.contains_key(key@),
        forall|t: String, d: i64| step.requires((t, d)),
    ensures
        final(store).wf(),
        final(store).encrypted() == old(store).encrypted(),
        numeric_outcome(*old(store), final(store)@, sse, key@, delta, step, r),
{
    let k = key.clone();
    let k2 = key.clone();
    if store.increment_or_decrement(key, delta, step) {
        let mut r = if delta > 0 {
            message_reply(200, MSG_INCREMENTED)
        } else {
            message_reply(200, MSG_DECREMENTED)
        };
        if sse {
            r.event = match store.get(k) {
                Some(e) => match utf8_text(e.data) {
                    Some(value) => Some(SseMessage { key: k2, value }),
                    None => None,
                },
                None => None,
            };
        }
        r
    } else {
        message_reply(400, MSG_NOT_NUMERIC)
    }
}

fn expire_key(store: &mut KvStore, key: String, value: Option<String>) -> (r: Reply)
    requires
        old(store).wf(),
        old(store)@.contains_key(key@),
    ensures
        final(store).wf(),
        final(store).encrypted() == old(store).encrypted(),
        ttl_outcome(old(store)@, final(store)@, key@, value, r),
{
    match value {
        Some(v) => match parse_i64(v.as_str()) {
            Some(ttl) => {
                let now = now_seconds();
                let r = match store.expire_at(key, now, ttl) {
                    Some(at) => match utc_display(at) {
                        Some(t) => {
                            let text = MSG_EXPIRE_AT.to_owned().concat(t.as_str()).concat(".");
                            Reply { status: 200, body: Body::Message(text), event: None }
                        },
                        None => message_reply(200, MSG_EXPIRE_SET),
                    },
                    None => message_reply(400, MSG_EXPIRE_FAILED),
                };
                assert(ttl_applied(old(store)@, final(store)@, key@, now, ttl, r));
                assert(integer_of(v@)->Some_0 as i64 == ttl);
                r
            },
            None => message_reply(400, MSG_TTL_NOT_INTEGER),
        },
        None => message_reply(400, MSG_TTL_MISSING),
    }
}

/// A PATCH of `key`: `step` parses a numeric text and adds a delta to it,
/// for increment and decrement.
pub fn patch_key<F: Fn(String, i64) -> Option<Vec<u8>>>(
    store: &mut KvStore,
    sse: bool,
    key: String,
    patch: PatchValue,
    step: F,
) -> (r: Reply)
    requires
        old(store).wf(),
        forall|t: String, d: i64| step.requires((t, d)),
    ensures
        final(store).wf(),
        final(store).encrypted() == old(store).encrypted(),
        patch_outcome(*old(store), final(store)@, sse, key@, patch, step, r),
{
    let k = key.clone();
    if store.get(k).is_none() {
        return error_reply(ApiError::KeyNotFound);
    }
    let lowered = lowercase(patch.operation.as_str());
    match patch_operation(&lowered) {
        Some(PatchOp::Lock) => lock_key(store, key, true),
        Some(PatchOp::Unlock) => lock_key(store, key, false),
        Some(PatchOp::Increment) => step_key(store, sse, key, 1, step),
        Some(PatchOp::Decrement) => step_key(store, sse, key, -1, step),
        Some(PatchOp::Ttl) => expire_key(store, key, patch.value),
        None => error_reply(ApiError::InvalidOperation { operation: patch.operation }),
    }
}

/// A request on `/api/kv/{key}`, as the HTTP layer hands it over: the PATCH
/// body already read as JSON (`None` when it was not valid JSON of that shape).
#[derive(Clone, Debug)]
pub struct Request {
    pub method: Method,
    pub key: String,
    pub authorization: Option<String>,
    pub content_type: Option<String>,
    pub body: Vec<u8>,
    pub patch: Option<PatchValue>,
}

/// What a request on a key does once it has passed the authorization gate.
pub open spec fn dispatch_outcome<F: Fn(String, i64) -> Option<Vec<u8>>>(
    store: KvStore,
    after: Map<Seq<char>, EntryView>,
    s: Settings,
    req: Request,
    step: F,
    r: Reply,
) -> bool {
    let m = store@;
    let key = req.key@;
    match req.method {
        Method::Get => get_outcome(m, key, r) && after == m,
        Method::Head => head_outcome(m, key, r) && after == m,
        Method::Delete => delete_outcome(m, after, key, r),
        Method::Put => put_outcome(
            store,
            after,
            s,
            key,
            req.body@,
            match req.content_type {
                Some(t) => Some(t@),
                None => None,
            },
            r,
        ),
        Method::Patch => if req.body@.len() > s.http.request_size_limit {
            r.status == 400 && says(r, error_message(ApiError::PayloadTooLarge)) && after == m
                && r.event is None
        } else {
            match req.patch {
                None => r.status == 400 && says(r, error_message(ApiError::MalformedBody)) && after
                    == m && r.event is None,
                Some(p) => patch_outcome(store, after, s.sse.enabled, key, p, step, r),
            }
        },
        Method::Other => r.status == 405 && says(r, error_message(ApiError::MethodNotAllowed))
            && after == m && r.event is None,
    }
}

/// Handles a request on a key: the authorization gate, then the verb.
/// `step` parses a numeric text and adds a delta to it, for PATCH increment
/// and decrement.
pub fn handle_kv<F: Fn(String, i64) -> Option<Vec<u8>>>(
    store: &mut KvStore,
    settings: &Settings,
    req: Request,
    step: F,
) -> (r: Reply)
    requires
        old(store).wf(),
        forall|t: String, d: i64| step.requires((t, d)),
    ensures
        final(store).wf(),
        final(store).encrypted() == old(store).encrypted(),
        settings.authentication.enabled && req.authorization is None ==> r.status == 401 && says(
            r,
            error_message(ApiError::MissingAuthHeader),
        ) && final(store)@ == old(store)@,
        r.status == 401 ==> final(store)@ == old(store)@ && r.event is None,
        r.status == 401 && req.authorization is Some ==> says(
            r,
            error_message(ApiError::InvalidJwtToken),
        ),
        r.status == 401 ==> settings.authentication.enabled,
        r.status != 401 ==> dispatch_outcome(*old(store), final(store)@, *settings, req, step, r),
        !settings.authentication.enabled ==> dispatch_outcome(
            *old(store),
            final(store)@,
            *settings,
            req,
            step,
            r,
        ),
{
    match verify_auth(&settings.authentication, req.authorization.clone()) {
        Err(e) => return error_reply(e),
        Ok(()) => {},
    }
    let r = match req.method {
        Method::Get => get_key(store, req.key),
        Method::Head => find_key(store, req.key),
        Method::Delete => delete_key(store, req.key),
        Method::Put => put_key(store, settings, req.key, req.body, req.content_type),
        Method::Patch => {
            if req.body.len() as u64 > settings.http.request_size_limit {
                error_reply(ApiError::PayloadTooLarge)
            } else {
                match req.patch {
                    None => error_reply(ApiError::MalformedBody),
                    Some(p) => patch_key(store, settings.sse.enabled, req.key, p, step),
                }
            }
        },
        Method::Other => error_reply(ApiError::MethodNotAllowed),
    };
    r
}

/// A first accepted PUT of a key answers 201 (created) and a second one 200
/// (updated); the entry keeps its creation time and counts two mutations.
pub proof fn lemma_put_created_then_updated(
    first: KvStore,
    between: Map<Seq<char>, EntryView>,
    second: KvStore,
    after: Map<Seq<char>, EntryView>,
    s: Settings,
    key: Seq<char>,
    b1: Seq<u8>,
    b2: Seq<u8>,
    t1: Option<Seq<char>>,
    t2: Option<Seq<char>>,
    r1: Reply,
    r2: Reply,
)
    requires
        !first@.contains_key(key),
        size_ok(b1.len(), s),
        size_ok(b2.len(), s),
        put_outcome(first, between, s, key, b1, t1, r1),
        second@ == between,
        put_outcome(second, after, s, key, b2, t2, r2),
    ensures
        r1.status == 201,
        r2.status == 200,
        after[key].created_at == between[key].created_at,
        between[key].update_count == 1,
        after[key].update_count == 2,
        after[key].data == second.readback(b2),
{
    assert(between.contains_key(key));
    assert(!between[key].locked);
}

/// Once a lock PATCH has locked a key, a second lock PATCH answers 409 and
/// changes nothing.
pub proof fn lemma_relock_conflicts(
    m: Map<Seq<char>, EntryView>,
    between: Map<Seq<char>, EntryView>,
    after: Map<Seq<char>, EntryView>,
    key: Seq<char>,
    r1: Reply,
    r2: Reply,
)
    requires
        m.contains_key(key),
        lock_outcome(m, between, key, true, r1),
        r1.status == 200,
        lock_outcome(between, after, key, true, r2),
    ensures
        r2.status == 409,
        after == between,
        between[key].locked,
{
}

/// A DELETE of a key that is not there answers 404 and leaves every entry
/// as it was, so that a repeated DELETE answers 404 again.
pub proof fn lemma_delete_missing(
    m: Map<Seq<char>, EntryView>,
    after: Map<Seq<char>, EntryView>,
    key: Seq<char>,
    r: Reply,
)
    requires
        !m.contains_key(key),
        delete_outcome(m, after, key, r),
    ensures
        r.status == 404,
        after == m,
{
    assert(m.remove(key) =~= m);
}

/// What a subscriber takes from the notification channel: a change, or word
/// that it fell behind and lost some events.
#[derive(Clone, Debug)]
pub enum Received {
    Message(SseMessage),
    Lagged(u64),
}

/// The event that a subscriber's stream emits for what it took from the
/// channel: the change itself; nothing for a lag, after which the stream
/// goes on with the next change.
pub fn stream_event(item: Received) -> (r: Option<SseMessage>)
    ensures
        item matches Received::Message(m) ==> r == Some(m),
        item is Lagged ==> r is None,
{
    match item {
        Received::Message(m) => Some(m),
        Received::Lagged(_) => None,
    }
}

/// The warning logged when a subscriber lost `lost` events.
pub fn lag_warning(lost: u64) -> (r: String)
    ensures
        r@ == "SSE stream lagged, "@ + decimal(lost as nat) + " events lost"@,
{
    let n = decimal_text(lost);
    "SSE stream lagged, ".to_owned().concat(n.as_str()).concat(" events lost")
}

} // verus!
