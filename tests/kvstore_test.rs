use lucid::store::KvStore;

const CIPHER: std::option::Option<[&str; 2]> = Some([
    "123456789012345678901234123456789012345678901234",
    "f0f1f2f3f4f5f6f7f8f9fafbfcfdfeff",
]);

const DATA: [u8; 512] = [42u8; 512];

const KEY: &str = "test_value";

fn init_kv() -> KvStore {
    let mut kv = KvStore::new(CIPHER);
    kv.set(KEY.to_string(), DATA.to_vec(), None);
    kv
}

#[test]
fn get_returns_a_value() {
    let kv = init_kv();
    let value = kv.get(KEY.to_string());

    match value {
        Some(v) => assert_eq!(v.data, DATA.to_vec()),
        None => panic!("No value found"),
    }
}

#[test]
fn round_trip_without_encryption() {
    let mut kv = KvStore::new(None);
    let payload = vec![0u8, 1, 2, 0, 255, 0, 0];
    assert!(kv.set("k".to_string(), payload.clone(), None).is_none());
    assert_eq!(kv.get("k".to_string()).unwrap().data, payload);
}

#[test]
fn round_trip_with_encryption() {
    let mut kv = KvStore::new(CIPHER);
    let payload = b"a value that spans more than one cipher block".to_vec();
    kv.set("k".to_string(), payload.clone(), Some("text/plain".to_string()));
    let e = kv.get("k".to_string()).unwrap();
    assert_eq!(e.data, payload);
    assert_eq!(e.mime_type, "text/plain");
}

#[test]
fn encryption_loses_trailing_zero_bytes() {
    let mut kv = KvStore::new(CIPHER);
    kv.set("k".to_string(), vec![7u8, 8, 0, 0], None);
    assert_eq!(kv.get("k".to_string()).unwrap().data, vec![7u8, 8]);
    kv.set("z".to_string(), vec![0u8, 0, 0], None);
    assert_eq!(kv.get("z".to_string()).unwrap().data, vec![0u8]);
}

#[test]
fn empty_value_round_trips_with_encryption() {
    let mut kv = KvStore::new(CIPHER);
    kv.set("k".to_string(), Vec::new(), None);
    assert_eq!(kv.get("k".to_string()).unwrap().data, Vec::<u8>::new());
}

#[test]
fn equal_plaintexts_give_equal_ciphertexts() {
    let c = lucid::cipher::Cipher::from_hex(
        "123456789012345678901234123456789012345678901234",
        "f0f1f2f3f4f5f6f7f8f9fafbfcfdfeff",
    )
    .unwrap();
    let a = c.encrypt(b"same");
    let b = c.encrypt(b"same");
    assert_eq!(a, b);
    assert_eq!(a.len(), 16);
    assert_ne!(a, b"same\0\0\0\0\0\0\0\0\0\0\0\0".to_vec());
    assert_eq!(c.decrypt(&a), b"same".to_vec());
}

#[test]
fn cipher_rejects_bad_hex() {
    assert!(lucid::cipher::Cipher::from_hex("1234", "f0f1f2f3f4f5f6f7f8f9fafbfcfdfeff").is_none());
    assert!(lucid::cipher::Cipher::from_hex(
        "12345678901234567890123412345678901234567890123z",
        "f0f1f2f3f4f5f6f7f8f9fafbfcfdfeff"
    )
    .is_none());
    assert!(lucid::cipher::Cipher::from_hex(
        "123456789012345678901234123456789012345678901234",
        "F0F1F2F3F4F5F6F7F8F9FAFBFCFDFEFF"
    )
    .is_some());
}

#[test]
fn creation_then_update() {
    let mut kv = KvStore::new(None);
    assert!(kv.set("k".to_string(), b"one".to_vec(), None).is_none());
    let first = kv.get("k".to_string()).unwrap();
    assert_eq!(first.update_count, 1);
    assert!(first.created_at > 0);
    assert_eq!(first.created_at, first.updated_at);
    let before = kv.set("k".to_string(), b"two".to_vec(), None).unwrap();
    assert_eq!(before.data, b"one".to_vec());
    let second = kv.get("k".to_string()).unwrap();
    assert_eq!(second.created_at, first.created_at);
    assert!(second.updated_at >= first.updated_at);
    assert_eq!(second.update_count, 2);
    assert_eq!(second.data, b"two".to_vec());
}

#[test]
fn sniffed_type_when_none_declared() {
    let mut kv = KvStore::new(None);
    kv.set("k".to_string(), b"plain words".to_vec(), None);
    assert!(!kv.get("k".to_string()).unwrap().mime_type.is_empty());
}

#[test]
fn lock_keeps_payload() {
    let mut kv = KvStore::new(None);
    kv.set("k".to_string(), b"old".to_vec(), Some("text/plain".to_string()));
    assert!(kv.switch_lock("k".to_string(), true));
    let before = kv.set("k".to_string(), b"new".to_vec(), Some("a/b".to_string())).unwrap();
    assert!(before.locked);
    let e = kv.get("k".to_string()).unwrap();
    assert_eq!(e.data, b"old".to_vec());
    assert_eq!(e.mime_type, "text/plain");
    assert_eq!(e.update_count, 3);
    assert!(!kv.switch_lock("k".to_string(), true));
    assert!(kv.switch_lock("k".to_string(), false));
    assert!(!kv.switch_lock("k".to_string(), false));
}

fn float_step(t: String, d: i64) -> Option<Vec<u8>> {
    t.trim().parse::<f64>().ok().map(|v| (v + d as f64).to_string().into_bytes())
}

#[test]
fn missing_key_reports_absence() {
    let mut kv = KvStore::new(None);
    assert!(kv.get("nope".to_string()).is_none());
    kv.drop("nope".to_string());
    assert!(!kv.switch_lock("nope".to_string(), true));
    assert!(!kv.increment_or_decrement("nope".to_string(), 1, float_step));
    assert!(kv.set_expiration("nope".to_string(), 60).is_none());
    assert!(kv.get("nope".to_string()).is_none());
}

#[test]
fn numeric_update_of_stored_text() {
    let mut kv = KvStore::new(CIPHER);
    kv.set("n".to_string(), b" 10 ".to_vec(), None);
    assert!(kv.increment_or_decrement("n".to_string(), 1, float_step));
    assert_eq!(kv.get("n".to_string()).unwrap().data, b"11".to_vec());
    assert!(kv.increment_or_decrement("n".to_string(), -1, float_step));
    assert!(kv.increment_or_decrement("n".to_string(), -1, float_step));
    assert_eq!(kv.get("n".to_string()).unwrap().data, b"9".to_vec());
    kv.set("h".to_string(), b"hello".to_vec(), None);
    assert!(!kv.increment_or_decrement("h".to_string(), 1, float_step));
    assert_eq!(kv.get("h".to_string()).unwrap().data, b"hello".to_vec());
    kv.set("b".to_string(), vec![0xffu8, 0xfe], None);
    assert!(!kv.increment_or_decrement("b".to_string(), 1, float_step));
}

#[test]
fn expiration_is_recorded() {
    let mut kv = KvStore::new(None);
    kv.set("k".to_string(), b"v".to_vec(), None);
    let at = kv.set_expiration("k".to_string(), 60).unwrap();
    let e = kv.get("k".to_string()).unwrap();
    assert_eq!(e.expire_at, at);
    assert_eq!(at, e.updated_at + 60);
    assert_eq!(e.update_count, 2);
    assert!(kv.set_expiration("k".to_string(), i64::MAX).is_none());
}

#[test]
fn delete_removes_entry() {
    let mut kv = KvStore::new(None);
    kv.set("k".to_string(), b"v".to_vec(), None);
    kv.drop("k".to_string());
    assert!(kv.get("k".to_string()).is_none());
}

#[test]
fn hundred_sets_on_one_key() {
    let mut kv = KvStore::new(CIPHER);
    for i in 0..100u32 {
        kv.set("k".to_string(), format!("payload-{}", i).into_bytes(), None);
    }
    let e = kv.get("k".to_string()).unwrap();
    assert_eq!(e.update_count, 100);
    assert_eq!(e.data, b"payload-99".to_vec());
}

#[test]
fn expire_at_given_time() {
    let mut kv = KvStore::new(None);
    assert_eq!(kv.expire_at("k".to_string(), 100, 5), None);
    kv.set("k".to_string(), b"v".to_vec(), None);
    assert_eq!(kv.expire_at("k".to_string(), 100, 5), Some(105));
    let e = kv.get("k".to_string()).unwrap();
    assert_eq!(e.expire_at, 105);
    assert_eq!(e.updated_at, 100);
    assert_eq!(e.update_count, 2);
    assert_eq!(kv.expire_at("k".to_string(), i64::MAX, 1), None);
    assert_eq!(kv.get("k".to_string()).unwrap().update_count, 2);
    assert!(kv.set_expiration("k".to_string(), 0).is_some());
}

#[test]
fn many_sets_and_deletes_keep_lookups_working() {
    let mut kv = KvStore::new(None);
    for i in 0..5000u32 {
        let key = format!("key-{}", i);
        kv.set(key.clone(), b"v".to_vec(), None);
        kv.drop(key);
    }
    assert!(kv.get("missing".to_string()).is_none());
    kv.drop("missing".to_string());
    assert!(kv.set("fresh".to_string(), b"v".to_vec(), None).is_none());
    assert_eq!(kv.get("fresh".to_string()).unwrap().data, b"v".to_vec());
}
