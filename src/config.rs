//! Configuration sections, with their default values.
use crate::cipher::{hex_bytes, hex_digit, hex_of_len};
use rand::Rng;
use vstd::prelude::*;

verus! {

/// Hex text of `b`: two lowercase digits per byte, high digit first.
pub open spec fn hex_text(b: Seq<u8>) -> Seq<char>
    decreases b.len(),
{
    if b.len() == 0 {
        Seq::<char>::empty()
    } else {
        seq![hex_char(b[0] / 16), hex_char(b[0] % 16)] + hex_text(b.subrange(1, b.len() as int))
    }
}

/// The lowercase hex digit for a value below 16.
pub open spec fn hex_char(v: u8) -> char {
    if v < 10 {
        (48 + v) as u8 as char
    } else {
        (87 + v) as u8 as char
    }
}

/// Relies on hex::encode: two lowercase digits per byte, high digit first.
#[verifier::external_body]
pub(crate) fn encode_hex(b: &[u8]) -> (r: String)
    ensures
        r@ == hex_text(b@),
{
    hex::encode(b)
}

/// Relies on rand's `thread_rng().gen::<u8>()`: a random byte.
#[verifier::external_body]
fn random_byte() -> (r: u8) {
    rand::thread_rng().gen::<u8>()
}

pub(crate) fn random_bytes(n: usize) -> (r: Vec<u8>)
    ensures
        r@.len() == n,
{
    let mut r: Vec<u8> = Vec::new();
    let mut i: usize = 0;
    while i < n
        invariant
            i <= n,
            r@.len() == i,
        decreases n - i,
    {
        r.push(random_byte());
        i = i + 1;
    }
    r
}

/// Hex text reads back as the bytes it was written from.
pub proof fn lemma_hex_round_trip(b: Seq<u8>)
    ensures
        hex_bytes(hex_text(b)) == Some(b),
        hex_text(b).len() == 2 * b.len(),
    decreases b.len(),
{
    if b.len() > 0 {
        let rest = b.subrange(1, b.len() as int);
        lemma_hex_round_trip(rest);
        let s = hex_text(b);
        let hi = b[0] / 16;
        let lo = b[0] % 16;
        assert(s[0] == hex_char(hi));
        assert(s[1] == hex_char(lo));
        assert(s.subrange(2, s.len() as int) =~= hex_text(rest));
        assert(hex_digit(hex_char(hi)) == Some(hi as int));
        assert(hex_digit(hex_char(lo)) == Some(lo as int));
        assert(seq![(hi * 16 + lo) as u8] + rest =~= b);
    } else {
        assert(hex_text(b) =~= Seq::<char>::empty());
    }
}

/// Bearer-token authentication.
#[derive(Clone, Debug)]
pub struct Authentication {
    pub enabled: bool,
    pub root_token: String,
    pub secret_key: String,
}

impl Default for Authentication {
    fn default() -> (r: Self)
        ensures
            !r.enabled,
            r.root_token@.len() == 0,
            r.secret_key@.len() == 0,
    {
        Authentication { enabled: false, root_token: String::new(), secret_key: String::new() }
    }
}

/// On-disk persistence (recorded, not carried out).
#[derive(Clone, Debug)]
pub struct Persistence {
    pub enabled: bool,
    pub location: String,
}

impl Default for Persistence {
    fn default() -> (r: Self)
        ensures
            !r.enabled,
            r.location@.len() == 0,
    {
        Persistence { enabled: false, location: String::new() }
    }
}

/// At-rest encryption: hex text of the key and of the iv.
#[derive(Clone, Debug)]
pub struct Encryption {
    pub enabled: bool,
    pub private_key: String,
    pub iv: String,
}

impl Default for Encryption {
    /// Disabled, with a fresh random key and iv that a store accepts.
    fn default() -> (r: Self)
        ensures
            !r.enabled,
            hex_of_len(r.private_key@, 24),
            hex_of_len(r.iv@, 16),
    {
        let k = random_bytes(24);
        let v = random_bytes(16);
        let private_key = encode_hex(k.as_slice());
        let iv = encode_hex(v.as_slice());
        proof {
            lemma_hex_round_trip(k@);
            lemma_hex_round_trip(v@);
        }
        Encryption { enabled: false, private_key, iv }
    }
}

/// Change notifications to subscribers.
#[derive(Clone, Debug)]
pub struct ServerSentEvent {
    pub enabled: bool,
}

impl Default for ServerSentEvent {
    fn default() -> (r: Self)
        ensures
            !r.enabled,
    {
        ServerSentEvent { enabled: false }
    }
}

/// The web user interface.
#[derive(Clone, Debug)]
pub struct WebUI {
    pub enabled: bool,
}

impl Default for WebUI {
    fn default() -> (r: Self)
        ensures
            !r.enabled,
    {
        WebUI { enabled: false }
    }
}

/// Largest value size in bytes that the store accepts by default.
pub const DEFAULT_MAX_VALUE_SIZE: u64 = 7340032;

/// Largest request body in bytes that the server accepts by default.
pub const DEFAULT_REQUEST_SIZE_LIMIT: u64 = 8388608;

/// Limits of the store.
#[derive(Clone, Debug)]
pub struct Store {
    pub max_limit: u64,
}

impl Default for Store {
    fn default() -> (r: Self)
        ensures
            r.max_limit == DEFAULT_MAX_VALUE_SIZE,
    {
        Store { max_limit: DEFAULT_MAX_VALUE_SIZE }
    }
}

/// Limits of the HTTP layer.
#[derive(Clone, Debug)]
pub struct Http {
    pub request_size_limit: u64,
}

impl Default for Http {
    fn default() -> (r: Self)
        ensures
            r.request_size_limit == DEFAULT_REQUEST_SIZE_LIMIT,
    {
        Http { request_size_limit: DEFAULT_REQUEST_SIZE_LIMIT }
    }
}

/// Where log lines go.
#[derive(Clone, Debug)]
pub enum LogOutput {
    File { path: String },
    Stdout { colored: bool },
    Stderr { colored: bool },
}

/// Logging: the most verbose level kept, by name, and the outputs.
#[derive(Clone, Debug)]
pub struct Logging {
    pub level: String,
    pub outputs: Vec<LogOutput>,
}

impl Default for Logging {
    /// Level "INFO", to plain standard output.
    fn default() -> (r: Self)
        ensures
            r.level@ == "INFO"@,
            r.outputs@.len() == 1,
            r.outputs@[0] == (LogOutput::Stdout { colored: false }),
    {
        let mut outputs: Vec<LogOutput> = Vec::new();
        outputs.push(LogOutput::Stdout { colored: false });
        Logging { level: "INFO".to_owned(), outputs }
    }
}

/// The claims of an access token.
#[derive(Clone, Debug)]
pub struct Claims {
    pub sub: String,
    pub iss: String,
    pub iat: i64,
    pub exp: i64,
}

} // verus!
