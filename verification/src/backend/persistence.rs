//! The persisted media-backend configuration (`backend.json`).

use vstd::prelude::*;
use super::BackendKind;
use crate::service::{default_options, ServiceOptions};

verus! {

/// The backend configuration as stored on disk.
#[derive(Debug)]
pub struct StoredBackendConfig {
    pub kind: BackendKind,
    pub gstpop_url: String,
    /// A plaintext API key from configurations written before keys moved to
    /// the secret store.
    pub gstpop_api_key: Option<String>,
    /// The secret-store alias under which the API key is kept.
    pub gstpop_api_key_alias: Option<String>,
    pub gstpop_pipeline_id: String,
    pub gstpop_service: Option<ServiceOptions>,
    pub migration_service: Option<ServiceOptions>,
    pub auto_start_services: bool,
}

/// The daemon URL of a fresh configuration.
pub open spec fn default_gstpop_url() -> Seq<char> {
    "ws://127.0.0.1:9000"@
}

/// Whether `c` is the configuration used when none is stored: the migration
/// backend, a local gst-pop daemon on port 9000, pipeline `0`, no API key,
/// both services with default options, and no automatic service start.
pub open spec fn is_default_config(c: StoredBackendConfig) -> bool {
    &&& c.kind == BackendKind::Migration
    &&& c.gstpop_url@ == default_gstpop_url()
    &&& c.gstpop_api_key is None
    &&& c.gstpop_api_key_alias is None
    &&& c.gstpop_pipeline_id@ == "0"@
    &&& c.gstpop_service == Some(default_options())
    &&& c.migration_service == Some(default_options())
    &&& !c.auto_start_services
}

impl StoredBackendConfig {
    /// The configuration used when none is stored.
    pub fn defaults() -> (c: StoredBackendConfig)
        ensures
            is_default_config(c),
    {
        StoredBackendConfig {
            kind: BackendKind::Migration,
            gstpop_url: "ws://127.0.0.1:9000".to_owned(),
            gstpop_api_key: None,
            gstpop_api_key_alias: None,
            gstpop_pipeline_id: "0".to_owned(),
            gstpop_service: Some(ServiceOptions::default()),
            migration_service: Some(ServiceOptions::default()),
            auto_start_services: false,
        }
    }

    /// The gst-pop service options, defaulted when absent.
    pub open spec fn gstpop_opts_spec(&self) -> ServiceOptions {
        match self.gstpop_service {
            Some(s) => s,
            None => default_options(),
        }
    }

    /// The migration service options, defaulted when absent.
    pub open spec fn migration_opts_spec(&self) -> ServiceOptions {
        match self.migration_service {
            Some(s) => s,
            None => default_options(),
        }
    }

    /// The gst-pop service options, defaulted when absent.
    pub fn gstpop_opts(&self) -> (o: ServiceOptions)
        ensures
            o == self.gstpop_opts_spec(),
    {
        match self.gstpop_service {
            Some(s) => s,
            None => ServiceOptions::default(),
        }
    }

    /// The migration service options, defaulted when absent.
    pub fn migration_opts(&self) -> (o: ServiceOptions)
        ensures
            o == self.migration_opts_spec(),
    {
        match self.migration_service {
            Some(s) => s,
            None => ServiceOptions::default(),
        }
    }

    /// An independent copy.
    pub fn duplicate(&self) -> (c: StoredBackendConfig)
        ensures
            c == *self,
    {
        StoredBackendConfig {
            kind: self.kind,
            gstpop_url: self.gstpop_url.clone(),
            gstpop_api_key: match &self.gstpop_api_key {
                Some(k) => Some(k.clone()),
                None => None,
            },
            gstpop_api_key_alias: match &self.gstpop_api_key_alias {
                Some(k) => Some(k.clone()),
                None => None,
            },
            gstpop_pipeline_id: self.gstpop_pipeline_id.clone(),
            gstpop_service: self.gstpop_service,
            migration_service: self.migration_service,
            auto_start_services: self.auto_start_services,
        }
    }
}

} // verus!
