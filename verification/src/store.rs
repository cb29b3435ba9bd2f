//! The configuration store: the single live configuration.
//!
//! Exactly one configuration is live at any instant. `replace` swaps the
//! live value wholesale — there is no partial-update entry point, so a
//! reader can never observe a torn mix of two configurations — and `read`
//! hands out the snapshot a dispatch works on. The process-wide singleton
//! and its mutual-exclusion lock live with the caller that owns them; this
//! type carries the value semantics they guard.

use crate::config::Config;
use vstd::prelude::*;

verus! {

/// Holds the one live [`Config`].
pub struct ConfigStore {
    current: Config,
}

impl ConfigStore {
    /// The live configuration.
    pub closed spec fn snapshot(self) -> Config {
        self.current
    }

    /// A store whose live configuration is `initial`.
    pub fn start_with(initial: Config) -> (s: ConfigStore)
        ensures
            s.snapshot() == initial,
    {
        ConfigStore { current: initial }
    }

    /// Atomically replaces the live configuration with `config`; the old
    /// one is discarded.
    pub fn replace(&mut self, config: Config)
        ensures
            final(self).snapshot() == config,
    {
        self.current = config;
    }

    /// The snapshot a dispatch reads: exactly the live configuration.
    pub fn read(&self) -> (c: &Config)
        ensures
            *c == self.snapshot(),
    {
        &self.current
    }
}

impl Config {
    /// Publishes this configuration into the store, replacing the live
    /// one wholesale; no field is applied partially.
    pub fn save(self, store: &mut ConfigStore)
        ensures
            final(store).snapshot() == self,
    {
        store.replace(self);
    }
}

/// Publishing a configuration and then reading the store back yields the
/// exact values that were set — every color, console target, backtrace
/// policy and ordered sink list, with no silent coercion of any field.
pub proof fn lemma_publish_read_round_trip(store: ConfigStore, published: Config)
    requires
        store.snapshot() == published,
    ensures
        store.snapshot().time == published.time,
        store.snapshot().color@ == published.color@,
        store.snapshot().console@ == published.console@,
        store.snapshot().backtrace@ == published.backtrace@,
        forall|i: int| 0 <= i < published.web@.len()
            ==> #[trigger] store.snapshot().web@[i]@ == published.web@[i]@,
        forall|i: int| 0 <= i < published.file@.len()
            ==> #[trigger] store.snapshot().file@[i]@ == published.file@[i]@,
{
}

} // verus!
