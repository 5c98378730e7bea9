use fcastsender::backend::persistence::StoredBackendConfig;
use fcastsender::backend::BackendKind;
use fcastsender::config::migration::{key_stored, migrate_config, DEFAULT_ALIAS};
use fcastsender::secret::{InMemorySecretStore, SecretBytes, SecretError, SecretStore};

fn legacy_config(key: Option<&str>, alias: Option<&str>) -> StoredBackendConfig {
    let mut c = StoredBackendConfig::defaults();
    c.kind = BackendKind::GstPop;
    c.gstpop_api_key = key.map(|k| k.to_owned());
    c.gstpop_api_key_alias = alias.map(|a| a.to_owned());
    c
}

#[test]
fn extracts_plaintext() {
    let mut store = InMemorySecretStore::new();
    let mut config = legacy_config(Some("secret-123"), None);
    assert_eq!(migrate_config(&mut config, &mut store), Ok(true));
    assert_eq!(config.gstpop_api_key, None);
    assert_eq!(config.gstpop_api_key_alias.as_deref(), Some("gstpop.api_key.v1"));
    let bytes = store.get(DEFAULT_ALIAS).unwrap();
    assert_eq!(bytes.as_str().unwrap(), "secret-123");
}

#[test]
fn idempotent() {
    let mut store = InMemorySecretStore::new();
    let mut config = legacy_config(None, Some("gstpop.api_key.v1"));
    assert_eq!(migrate_config(&mut config, &mut store), Ok(false));
    assert_eq!(config.gstpop_api_key_alias.as_deref(), Some("gstpop.api_key.v1"));
    let mut empty = legacy_config(Some(""), None);
    assert_eq!(migrate_config(&mut empty, &mut store), Ok(false));
    assert_eq!(empty.gstpop_api_key.as_deref(), Some(""));
    // Nothing was put in the store.
    assert!(matches!(store.get(DEFAULT_ALIAS), Err(SecretError::NotFound(_))));
}

/// A store that refuses every change.
struct LockedStore;

impl SecretStore for LockedStore {
    fn get(&self, alias: &str) -> Result<SecretBytes, SecretError> {
        Err(SecretError::NotFound(alias.to_owned()))
    }
    fn put(&mut self, _alias: &str, _value: &[u8]) -> Result<(), SecretError> {
        Err(SecretError::Backend("keystore locked".to_owned()))
    }
    fn delete(&mut self, _alias: &str) -> Result<(), SecretError> {
        Err(SecretError::Backend("keystore locked".to_owned()))
    }
}

#[test]
fn refused_store_fails_the_migration() {
    let mut config = legacy_config(Some("secret-123"), None);
    let r = migrate_config(&mut config, &mut LockedStore);
    assert_eq!(r, Err("put: backend error: keystore locked".to_owned()));
    assert_eq!(config.gstpop_api_key.as_deref(), Some("secret-123"));
    assert_eq!(config.gstpop_api_key_alias, None);
}

#[test]
fn refused_put_leaves_the_config_alone() {
    let mut config = legacy_config(Some("secret-123"), None);
    let r = key_stored(&mut config, Err(SecretError::Backend("keystore locked".into())));
    assert_eq!(r, Err("put: backend error: keystore locked".to_owned()));
    assert_eq!(config.gstpop_api_key.as_deref(), Some("secret-123"));
    assert_eq!(config.gstpop_api_key_alias, None);
}
