//! Moving a plaintext gst-pop API key out of the stored configuration and
//! into the secret store. Idempotent: a configuration without a plaintext
//! key is left alone.

use vstd::prelude::*;
use crate::backend::persistence::StoredBackendConfig;
use crate::secret::{secret_error_text, SecretError, SecretStore};
use crate::text::{owned, push_str};
use vstd::utf8::encode_utf8;

verus! {

/// The secret-store alias the migrated key is kept under.
pub const DEFAULT_ALIAS: &'static str = "gstpop.api_key.v1";

/// The configuration still holds a plaintext key to migrate.
pub open spec fn has_legacy_key(c: StoredBackendConfig) -> bool {
    c.gstpop_api_key matches Some(k) && k@.len() > 0
}

/// The UTF-8 bytes of the plaintext key, as they are put in the store.
pub open spec fn legacy_key_bytes(c: StoredBackendConfig) -> Seq<u8> {
    match c.gstpop_api_key {
        Some(k) => encode_utf8(k@),
        None => Seq::empty(),
    }
}

/// `after` is `before` with its key moved out: no plaintext key, the
/// alias set, everything else as it was.
pub open spec fn key_moved(before: StoredBackendConfig, after: StoredBackendConfig) -> bool {
    &&& after.gstpop_api_key is None
    &&& after.gstpop_api_key_alias matches Some(a) && a@ == DEFAULT_ALIAS@
    &&& after.kind == before.kind
    &&& after.gstpop_url == before.gstpop_url
    &&& after.gstpop_pipeline_id == before.gstpop_pipeline_id
    &&& after.gstpop_service == before.gstpop_service
    &&& after.migration_service == before.migration_service
    &&& after.auto_start_services == before.auto_start_services
}

/// Finishes a migration once the secret store answered the `put` of the
/// key: on success the configuration points at the alias and holds no
/// plaintext key; on failure it is unchanged and the error is reported as
/// `put: <error>`.
pub fn key_stored(config: &mut StoredBackendConfig, put: Result<(), SecretError>) -> (r: Result<(), String>)
    ensures
        put is Ok ==> r is Ok && key_moved(*old(config), *final(config)),
        put matches Err(e) ==> (r matches Err(m) && m@ == "put: "@ + secret_error_text(e))
            && *final(config) == *old(config),
{
    match put {
        Ok(()) => {
            config.gstpop_api_key_alias = Some(owned(DEFAULT_ALIAS));
            config.gstpop_api_key = None;
            Ok(())
        },
        Err(e) => {
            let mut m = owned("put: ");
            push_str(&mut m, e.display_string().as_str());
            Err(m)
        },
    }
}

/// Migrates a parsed configuration: without a plaintext key nothing
/// happens (`Ok(false)`); otherwise the key is put in `store` under
/// [`DEFAULT_ALIAS`] and the configuration is rewritten to point at it
/// (`Ok(true)`), unless the store refuses, in which case the configuration
/// is unchanged and the refusal is returned.
pub fn migrate_config<S: SecretStore>(config: &mut StoredBackendConfig, store: &mut S) -> (r: Result<bool, String>)
    ensures
        !has_legacy_key(*old(config)) ==> r == Ok::<bool, String>(false) && *final(config) == *old(config)
            && *final(store) == *old(store),
        has_legacy_key(*old(config)) && S::keeps_model()
            && !old(store).refuses(DEFAULT_ALIAS@, legacy_key_bytes(*old(config))) ==> r == Ok::<bool, String>(true),
        has_legacy_key(*old(config)) ==> match r {
            Ok(changed) => changed && key_moved(*old(config), *final(config))
                && (S::keeps_model() ==> final(store).secrets()
                    == old(store).secrets().insert(DEFAULT_ALIAS@, legacy_key_bytes(*old(config)))),
            Err(m) => *final(config) == *old(config)
                && (S::keeps_model() ==> final(store).secrets() == old(store).secrets()
                    && old(store).refuses(DEFAULT_ALIAS@, legacy_key_bytes(*old(config))))
                && exists|e: SecretError| m@ == "put: "@ + secret_error_text(e),
        },
{
    let key = match &config.gstpop_api_key {
        Some(k) => {
            if k.as_str().is_empty() {
                return Ok(false);
            }
            k.clone()
        },
        None => return Ok(false),
    };
    let put = store.put(DEFAULT_ALIAS, key.as_str().as_bytes());
    let ghost answer = put;
    match key_stored(config, put) {
        Ok(()) => Ok(true),
        Err(m) => {
            proof {
                assert(answer matches Err(e) && m@ == "put: "@ + secret_error_text(e));
            }
            Err(m)
        },
    }
}

} // verus!
