//! The part of the client configuration that startup reads, and the store
//! configuration derived from it.

use vstd::prelude::*;

verus! {

/// How the store lays out and compacts its files.
#[derive(Clone, Copy, Debug, PartialEq, Eq)]
pub struct CompactionProfile {
    pub initial_file_size: u64,
    pub file_size_multiplier: i32,
    pub write_rate_limit: Option<u64>,
}

/// What startup reads of the client configuration.
#[derive(Clone, Copy, Debug, PartialEq, Eq)]
pub struct ClientSettings {
    /// Memory budget of the store, if one is set.
    pub db_cache_size: Option<usize>,
    /// Compaction profile, resolved for the path of the store.
    pub db_compaction: CompactionProfile,
    /// Whether the store keeps a write-ahead log.
    pub db_wal: bool,
}

/// Configuration with which the persistent store is opened.
#[derive(Clone, Copy, Debug, PartialEq, Eq)]
pub struct StoreConfig {
    /// Number of columns; fixed by the schema of the subsystems.
    pub columns: Option<u32>,
    pub memory_budget: Option<usize>,
    pub compaction: CompactionProfile,
    pub wal: bool,
}

impl StoreConfig {
    /// The store configuration for a schema of `columns` columns: memory
    /// budget, compaction profile and write-ahead-log flag are those of the
    /// client configuration.
    pub open spec fn derived(columns: Option<u32>, settings: ClientSettings) -> StoreConfig {
        StoreConfig {
            columns,
            memory_budget: settings.db_cache_size,
            compaction: settings.db_compaction,
            wal: settings.db_wal,
        }
    }

    /// Derives the store configuration from the client configuration.
    pub fn derive(columns: Option<u32>, settings: &ClientSettings) -> (config: StoreConfig)
        ensures
            config == Self::derived(columns, *settings),
    {
        StoreConfig {
            columns,
            memory_budget: settings.db_cache_size,
            compaction: settings.db_compaction,
            wal: settings.db_wal,
        }
    }
}

/// What startup hands to the steps it asks for.
#[derive(Clone, Debug, PartialEq, Eq)]
pub struct StartupPlan {
    /// Configuration of the store, used to open it and handed on to the
    /// snapshot synchronizer.
    pub store: StoreConfig,
    /// Where the store lives.
    pub client_path: String,
}

impl StartupPlan {
    /// The plan of a startup for a schema of `columns` columns, under the
    /// client configuration `settings`, with the store at `client_path`.
    pub open spec fn derived(
        columns: Option<u32>,
        settings: ClientSettings,
        client_path: String,
    ) -> StartupPlan {
        StartupPlan {
            store: StoreConfig::derived(columns, settings),
            client_path,
        }
    }

    /// Lays out a startup from the client configuration and the path of the
    /// store.
    pub fn derive(columns: Option<u32>, settings: &ClientSettings, client_path: String) -> (plan:
        StartupPlan)
        ensures
            plan == Self::derived(columns, *settings, client_path),
    {
        StartupPlan {
            store: StoreConfig::derive(columns, settings),
            client_path,
        }
    }
}

} // verus!
