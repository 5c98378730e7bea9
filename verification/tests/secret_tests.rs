use fcastsender::secret::{InMemorySecretStore, SecretBytes, SecretError};

#[test]
fn round_trip() {
    let mut s = InMemorySecretStore::new();
    s.put("a", b"hello").unwrap();
    let got = s.get("a").unwrap();
    assert_eq!(got.as_slice(), b"hello");
}

#[test]
fn not_found_is_distinct() {
    let s = InMemorySecretStore::new();
    match s.get("a") {
        Err(SecretError::NotFound(name)) => assert_eq!(name, "a"),
        Err(other) => panic!("unexpected: {other:?}"),
        Ok(_) => panic!("unexpected: a value for an alias never stored"),
    }
}

#[test]
fn debug_never_leaks_value() {
    let s = SecretBytes::new(b"hello world".to_vec());
    let debug = s.debug_string();
    assert!(!debug.contains("hello"));
}
