//! Backend registry: owns the chosen media backend for each kind.

use vstd::prelude::*;
use crate::text::push_str;

verus! {

/// Stable identifier for a backend implementation in the registry.
#[derive(Clone, Copy, Debug, PartialEq, Eq, Structural)]
pub enum BackendKind {
    Gstpop,
    Migration,
}

/// The debug name of a registry kind.
pub open spec fn registry_kind_name(k: BackendKind) -> Seq<char> {
    match k {
        BackendKind::Gstpop => "Gstpop"@,
        BackendKind::Migration => "Migration"@,
    }
}

/// The refusal of [`InMemoryRegistry::require`] for an empty slot.
pub open spec fn missing_backend_text(k: BackendKind) -> Seq<char> {
    "no backend installed for kind="@ + registry_kind_name(k)
}

/// One slot per backend kind.
pub struct InMemoryRegistry<B> {
    gstpop: Option<B>,
    migration: Option<B>,
}

impl<B> InMemoryRegistry<B> {
    /// The backend installed for a kind.
    pub closed spec fn slot(&self, kind: BackendKind) -> Option<B> {
        match kind {
            BackendKind::Gstpop => self.gstpop,
            BackendKind::Migration => self.migration,
        }
    }

    /// An empty registry.
    pub fn new() -> (r: InMemoryRegistry<B>)
        ensures
            r.slot(BackendKind::Gstpop) is None,
            r.slot(BackendKind::Migration) is None,
    {
        InMemoryRegistry { gstpop: None, migration: None }
    }

    /// Installs `backend` for `kind`, replacing any earlier one.
    pub fn install(&mut self, kind: BackendKind, backend: B)
        ensures
            final(self).slot(kind) == Some(backend),
            forall|k: BackendKind| k != kind ==> final(self).slot(k) == old(self).slot(k),
    {
        match kind {
            BackendKind::Gstpop => self.gstpop = Some(backend),
            BackendKind::Migration => self.migration = Some(backend),
        }
    }

    /// The backend installed for `kind`, if any.
    pub fn get(&self, kind: BackendKind) -> (r: Option<&B>)
        ensures
            match r {
                Some(b) => self.slot(kind) == Some(*b),
                None => self.slot(kind) is None,
            },
    {
        match kind {
            BackendKind::Gstpop => self.gstpop.as_ref(),
            BackendKind::Migration => self.migration.as_ref(),
        }
    }

    /// The backend installed for `kind`, or an error naming the kind.
    pub fn require(&self, kind: BackendKind) -> (r: Result<&B, String>)
        ensures
            match r {
                Ok(b) => self.slot(kind) == Some(*b),
                Err(e) => self.slot(kind) is None && e@ == missing_backend_text(kind),
            },
    {
        match self.get(kind) {
            Some(b) => Ok(b),
            None => {
                let mut e = String::new();
                push_str(&mut e, "no backend installed for kind=");
                match kind {
                    BackendKind::Gstpop => push_str(&mut e, "Gstpop"),
                    BackendKind::Migration => push_str(&mut e, "Migration"),
                }
                assert(e@ =~= missing_backend_text(kind));
                Err(e)
            },
        }
    }
}

} // verus!
