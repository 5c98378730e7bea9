//! The composition root: the backend registry and the secret store that
//! the rest of the app reaches through one context.

use vstd::prelude::*;
use crate::backend::registry::{BackendKind, InMemoryRegistry};
use crate::secret::SecretStore;

verus! {

/// The app context: installed backends and the secret store.
pub struct App<B, S: SecretStore> {
    registry: InMemoryRegistry<B>,
    secrets: S,
}

impl<B, S: SecretStore> App<B, S> {
    /// The backends installed, by kind.
    pub closed spec fn backend(&self, kind: BackendKind) -> Option<B> {
        self.registry.slot(kind)
    }

    /// The secret store.
    pub closed spec fn store(&self) -> S {
        self.secrets
    }

    /// The production context: the migration backend installed and
    /// nothing else, with `secrets` as the store.
    pub fn production(migration: B, secrets: S) -> (a: App<B, S>)
        ensures
            a.backend(BackendKind::Migration) == Some(migration),
            a.backend(BackendKind::Gstpop) is None,
            a.store() == secrets,
    {
        let mut registry = InMemoryRegistry::new();
        registry.install(BackendKind::Migration, migration);
        App { registry, secrets }
    }

    /// The same context with another secret store.
    pub fn with_secrets<T: SecretStore>(self, secrets: T) -> (a: App<B, T>)
        ensures
            forall|k: BackendKind| a.backend(k) == self.backend(k),
            a.store() == secrets,
    {
        App { registry: self.registry, secrets }
    }

    /// The backend registry.
    pub fn registry(&self) -> (r: &InMemoryRegistry<B>)
        ensures
            forall|k: BackendKind| r.slot(k) == self.backend(k),
    {
        &self.registry
    }

    /// The backend registry, for installing.
    pub fn registry_mut(&mut self) -> (r: &mut InMemoryRegistry<B>)
        ensures
            forall|k: BackendKind| r.slot(k) == old(self).backend(k),
            forall|k: BackendKind| final(self).backend(k) == final(r).slot(k),
            final(self).store() == old(self).store(),
    {
        &mut self.registry
    }

    /// The secret store.
    pub fn secrets(&self) -> (s: &S)
        ensures
            *s == self.store(),
    {
        &self.secrets
    }

    /// The secret store, for writing.
    pub fn secrets_mut(&mut self) -> (s: &mut S)
        ensures
            *s == old(self).store(),
            final(self).store() == *final(s),
            forall|k: BackendKind| final(self).backend(k) == old(self).backend(k),
    {
        &mut self.secrets
    }
}

} // verus!
