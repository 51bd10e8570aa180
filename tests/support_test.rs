use lucid::client::{
    delete_response, get_response, kv_url, mime_or_default, put_response, KvPutResponse,
    StatusError,
};
use lucid::config::{Encryption, Http, Logging, LogOutput, Store};
use lucid::logger::{get_binary, log_line, LogLevel};
use lucid::token::{generate_secret_key, root_claims};

#[test]
fn client_reads_statuses() {
    assert_eq!(put_response(201), Ok(KvPutResponse::Created));
    assert_eq!(put_response(200), Ok(KvPutResponse::Updated));
    assert_eq!(put_response(401), Err(StatusError::Unauthorized));
    assert_eq!(put_response(500), Err(StatusError::InvalidStatus { code: 500 }));
    assert_eq!(delete_response(204), Ok(true));
    assert_eq!(delete_response(404), Ok(false));
    let got = get_response(200, b"v".to_vec(), "text/plain".to_string()).unwrap().unwrap();
    assert_eq!(got.data, b"v".to_vec());
    assert!(get_response(404, Vec::new(), String::new()).unwrap().is_none());
    assert_eq!(kv_url("https", "localhost:7021", "foo"), "https://localhost:7021/api/kv/foo");
    assert_eq!(mime_or_default(None), "application/octet-stream");
}

#[test]
fn default_settings() {
    assert_eq!(Store::default().max_limit, 7340032);
    assert_eq!(Http::default().request_size_limit, 8388608);
    let l = Logging::default();
    assert_eq!(l.level, "INFO");
    assert!(matches!(l.outputs[0], LogOutput::Stdout { colored: false }));
    let e = Encryption::default();
    assert!(!e.enabled);
    assert_eq!(e.private_key.len(), 48);
    assert_eq!(e.iv.len(), 32);
    assert!(lucid::cipher::Cipher::from_hex(&e.private_key, &e.iv).is_some());
    assert_ne!(e.private_key, Encryption::default().private_key);
}

#[test]
fn secret_keys_are_hex_digests() {
    let k = generate_secret_key();
    assert_eq!(k.len(), 64);
    assert!(k.chars().all(|c| c.is_ascii_hexdigit() && !c.is_ascii_uppercase()));
    assert_ne!(k, generate_secret_key());
}

#[test]
fn root_token_claims() {
    let c = root_claims(1000, None);
    assert_eq!(c.sub, "Lucid Root Token");
    assert_eq!(c.iss, "http://localhost:7021/");
    assert_eq!(c.exp, 1000 + 94348800);
    assert_eq!(root_claims(1000, Some(5)).exp, 5);
    assert_eq!(root_claims(i64::MAX - 1, None).exp, i64::MAX);
}

#[test]
fn log_lines() {
    assert_eq!(get_binary(), "./lucid");
    assert_eq!(
        log_line(LogLevel::Warning, "2020/01/01 00:00:00", "careful"),
        "2020/01/01 00:00:00 [WARNING] ./lucid: careful"
    );
    assert!(LogLevel::Error.to_stderr());
    assert!(!LogLevel::Success.to_stderr());
    assert_eq!(LogLevel::Information.label(), "INFO");
}
