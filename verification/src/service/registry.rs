//! The service managers shared across the app, and lookup by id.

use vstd::prelude::*;
use crate::backend::gstpop::service::GstPopServiceManager;
use crate::backend::persistence::StoredBackendConfig;
use crate::migration::service::MigrationServiceManager;
use crate::overlay::OverlayManager;
use crate::text::str_eq;

verus! {

/// The managed services that can be looked up by id.
#[derive(Clone, Copy, Debug, PartialEq, Eq, Structural)]
pub enum ServiceId {
    GstPop,
    Migration,
}

/// The concrete managers shared across the app.
pub struct ServiceManagers {
    pub gstpop: GstPopServiceManager,
    pub migration: MigrationServiceManager,
    pub overlay: OverlayManager,
}

impl ServiceManagers {
    /// The managers for a configuration: each service with its configured
    /// (or default) options, and no overlays.
    pub fn init(config: &StoredBackendConfig) -> (m: ServiceManagers)
        ensures
            m.gstpop.options == config.gstpop_opts_spec(),
            m.migration.options == config.migration_opts_spec(),
            m.overlay@.len() == 0,
    {
        ServiceManagers {
            gstpop: GstPopServiceManager::new(config.gstpop_opts()),
            migration: MigrationServiceManager::new(config.migration_opts()),
            overlay: OverlayManager::new(),
        }
    }
}

/// The service an id names: `gstpop` or `migration`.
pub open spec fn service_for_id(id: Seq<char>) -> Option<ServiceId> {
    if id == "gstpop"@ {
        Some(ServiceId::GstPop)
    } else if id == "migration"@ {
        Some(ServiceId::Migration)
    } else {
        None
    }
}

/// Looks up a manager by id, once the managers exist.
pub fn lookup(managers: Option<&ServiceManagers>, id: &str) -> (r: Option<ServiceId>)
    ensures
        r == match managers {
            Some(_) => service_for_id(id@),
            None => None,
        },
{
    match managers {
        None => None,
        Some(_) => {
            if str_eq(id, "gstpop") {
                Some(ServiceId::GstPop)
            } else if str_eq(id, "migration") {
                Some(ServiceId::Migration)
            } else {
                None
            }
        },
    }
}

} // verus!
