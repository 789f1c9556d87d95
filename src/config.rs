use vstd::prelude::*;

verus! {

/// The schema version this library writes.
pub const SCHEMA_VERSION: u32 = 1;

/// Where the store lives and whether it is encrypted.
#[derive(Debug, Clone, PartialEq, Eq)]
pub struct AppConfig {
    pub db_path: String,
    pub encrypted: bool,
    pub schema_version: u32,
}

impl AppConfig {
    /// A configuration for a store at `db_path`, at the current schema
    /// version.
    pub fn default_at(db_path: String, encrypted: bool) -> (r: AppConfig)
        ensures
            r.db_path == db_path,
            r.encrypted == encrypted,
            r.schema_version == SCHEMA_VERSION,
    {
        AppConfig { db_path, encrypted, schema_version: SCHEMA_VERSION }
    }
}

} // verus!
