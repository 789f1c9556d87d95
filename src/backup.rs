use vstd::prelude::*;

use crate::config::AppConfig;
use crate::error::StoreError;

verus! {

/// Which way a backup copies the store file.
#[derive(Debug, Clone, Copy, PartialEq, Eq, Structural)]
pub enum BackupDirection {
    /// Copy the live store to another file.
    Export,
    /// Copy another file over the live store.
    Import,
}

/// What a backup does once the live handle is closed: copy one file over
/// another, configure the live path again, and reopen it only when the
/// store is not encrypted (a passphrase is never kept).
#[derive(Debug, Clone, PartialEq, Eq)]
pub struct BackupPlan {
    pub copy_from: String,
    pub copy_to: String,
    pub live_path: String,
    pub encrypted: bool,
    pub reopen: bool,
}

pub open spec fn backup_plan(config: AppConfig, direction: BackupDirection, other: String) -> BackupPlan {
    match direction {
        BackupDirection::Export => BackupPlan {
            copy_from: config.db_path,
            copy_to: other,
            live_path: config.db_path,
            encrypted: config.encrypted,
            reopen: !config.encrypted,
        },
        BackupDirection::Import => BackupPlan {
            copy_from: other,
            copy_to: config.db_path,
            live_path: config.db_path,
            encrypted: config.encrypted,
            reopen: !config.encrypted,
        },
    }
}

/// Plans an export to, or an import from, the file `other`; without a
/// configuration there is no live store and the answer is `Configuration`.
pub fn plan_backup(config: Option<AppConfig>, direction: BackupDirection, other: String) -> (r: Result<
    BackupPlan,
    StoreError,
>)
    ensures
        match config {
            None => r == Err::<BackupPlan, StoreError>(StoreError::Configuration),
            Some(c) => r == Ok::<BackupPlan, StoreError>(backup_plan(c, direction, other)),
        },
{
    match config {
        None => Err(StoreError::Configuration),
        Some(c) => {
            let live = c.db_path.clone();
            let (copy_from, copy_to) = match direction {
                BackupDirection::Export => (c.db_path, other),
                BackupDirection::Import => (other, c.db_path),
            };
            Ok(BackupPlan {
                copy_from,
                copy_to,
                live_path: live,
                encrypted: c.encrypted,
                reopen: !c.encrypted,
            })
        },
    }
}

/// An export to a file and an import from that same file mirror each
/// other: the import copies back exactly the file the export wrote, onto
/// the live path the export read, and both reopen an unencrypted store
/// (and leave an encrypted one locked) at that live path.
pub proof fn lemma_export_import_mirror(config: AppConfig, other: String)
    ensures
        ({
            let e = backup_plan(config, BackupDirection::Export, other);
            let i = backup_plan(config, BackupDirection::Import, other);
            &&& i.copy_from == e.copy_to
            &&& i.copy_to == e.copy_from
            &&& i.copy_to == e.live_path
            &&& i.live_path == e.live_path
            &&& e.reopen == !config.encrypted
            &&& i.reopen == e.reopen
        }),
{
}

} // verus!
