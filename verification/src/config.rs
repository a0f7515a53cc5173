//! The configuration document, as it stands once it has been read.

use vstd::prelude::*;

verus! {

/// The polling interval, in seconds, of a configuration that names none.
pub const DEFAULT_INTERVAL_SECONDS: u64 = 300;

/// The time to live, in seconds, of a record whose provider names none.
pub const DEFAULT_TTL: i64 = 300;

/// A whole configuration: the global settings and one entry per domain.
#[derive(Clone, Debug, PartialEq, Eq)]
pub struct Config {
    pub global: Global,
    pub entries: Vec<Entry>,
}

/// The settings that hold for every entry.
#[derive(Clone, Copy, Debug, PartialEq, Eq, Structural)]
pub struct Global {
    pub interval_seconds: u64,
}

impl Default for Global {
    /// The settings of a configuration without a global section.
    fn default() -> (global: Self)
        ensures
            global.interval_seconds == DEFAULT_INTERVAL_SECONDS,
    {
        Self { interval_seconds: DEFAULT_INTERVAL_SECONDS }
    }
}

/// One domain to keep up to date, and the provider that publishes it.
#[derive(Clone, Debug, PartialEq, Eq)]
pub struct Entry {
    pub domain: String,
    pub interval_seconds: Option<u64>,
    pub provider: ProviderType,
}

/// The provider of an entry, with the settings that its kind asks for.
#[derive(Clone, Debug, PartialEq, Eq)]
pub enum ProviderType {
    Aws { hosted_zone_id: String, ttl: Option<i64> },
}

impl Entry {
    /// The interval at which this entry is polled: its own, or the global one
    /// where it names none.
    pub open spec fn spec_interval(self, global: Global) -> u64 {
        match self.interval_seconds {
            Some(seconds) => seconds,
            None => global.interval_seconds,
        }
    }

    /// The interval at which this entry is polled: its own, or the global one
    /// where it names none.
    pub fn interval(&self, global: &Global) -> (seconds: u64)
        ensures
            seconds == self.spec_interval(*global),
    {
        match self.interval_seconds {
            Some(seconds) => seconds,
            None => global.interval_seconds,
        }
    }
}

} // verus!
