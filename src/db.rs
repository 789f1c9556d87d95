use vstd::prelude::*;

use crate::error::StoreError;
use crate::ids::now_millis;
use crate::rules::Rule;

verus! {

/// Whether a store is configured, encrypted, and open.
#[derive(Debug, Clone, Copy, PartialEq, Eq, Structural)]
pub struct DbStatus {
    pub configured: bool,
    pub encrypted: bool,
    pub unlocked: bool,
}

/// The one live store handle, with the configured path and encryption.
///
/// Unconfigured, then configured and locked (no handle), then unlocked
/// (a handle). `close` goes back to locked; `configure` may be called in
/// any state. Other components reach the handle only through `with_conn`.
#[derive(Debug)]
pub struct DbState<C> {
    conn: Option<C>,
    encrypted: bool,
    db_path: Option<String>,
}

/// One step of preparing a freshly opened store handle.
#[derive(Debug, Clone, PartialEq, Eq)]
pub enum SetupStep {
    /// Turn on foreign-key enforcement.
    ForeignKeysOn,
    /// Give the cipher its passphrase.
    Key(String),
    CipherPageSize(u32),
    KdfIterations(u32),
    CipherHmacSha512,
    CipherKdfPbkdf2HmacSha512,
    /// Read the schema so that a wrong key fails now.
    VerifyKey,
    JournalModeWal,
    SynchronousNormal,
    /// A small read that must succeed before the store is used.
    Probe,
}

pub const CIPHER_PAGE_SIZE: u32 = 4096;

pub const KDF_ITERATIONS: u32 = 64000;

/// The settings applied to every handle, with the fixed cipher
/// configuration when the store is encrypted.
pub open spec fn setup_steps(passphrase: Option<String>) -> Seq<SetupStep> {
    match passphrase {
        Some(p) => seq![
            SetupStep::ForeignKeysOn,
            SetupStep::Key(p),
            SetupStep::CipherPageSize(CIPHER_PAGE_SIZE),
            SetupStep::KdfIterations(KDF_ITERATIONS),
            SetupStep::CipherHmacSha512,
            SetupStep::CipherKdfPbkdf2HmacSha512,
            SetupStep::VerifyKey,
            SetupStep::JournalModeWal,
            SetupStep::SynchronousNormal,
        ],
        None => seq![
            SetupStep::ForeignKeysOn,
            SetupStep::JournalModeWal,
            SetupStep::SynchronousNormal,
        ],
    }
}

/// The steps for a handle on a store with the given encryption, or why it
/// cannot be opened.
pub open spec fn open_steps(encrypted: bool, passphrase: Option<String>) -> Result<Seq<SetupStep>, StoreError> {
    if !encrypted {
        Ok(setup_steps(None))
    } else {
        match passphrase {
            None => Err(StoreError::PassphraseRequired),
            Some(p) => Ok(setup_steps(Some(p))),
        }
    }
}

fn setup(encrypted: bool, passphrase: Option<String>) -> (r: Result<Vec<SetupStep>, StoreError>)
    ensures
        match open_steps(encrypted, passphrase) {
            Ok(s) => r matches Ok(v) && v@ == s,
            Err(e) => r == Err::<Vec<SetupStep>, StoreError>(e),
        },
{
    let mut steps: Vec<SetupStep> = Vec::new();
    steps.push(SetupStep::ForeignKeysOn);
    if encrypted {
        match passphrase {
            None => {
                return Err(StoreError::PassphraseRequired);
            },
            Some(p) => {
                steps.push(SetupStep::Key(p));
                steps.push(SetupStep::CipherPageSize(CIPHER_PAGE_SIZE));
                steps.push(SetupStep::KdfIterations(KDF_ITERATIONS));
                steps.push(SetupStep::CipherHmacSha512);
                steps.push(SetupStep::CipherKdfPbkdf2HmacSha512);
                steps.push(SetupStep::VerifyKey);
            },
        }
    }
    steps.push(SetupStep::JournalModeWal);
    steps.push(SetupStep::SynchronousNormal);
    proof {
        assert(steps@ =~= match open_steps(encrypted, passphrase) {
            Ok(s) => s,
            Err(_) => Seq::empty(),
        });
    }
    Ok(steps)
}

/// A row for the meta table.
#[derive(Debug, Clone, Copy, PartialEq, Eq, Structural)]
pub struct MetaRow {
    pub schema_version: u32,
    pub created_at_utc: i64,
}

/// What a migration writes besides its idempotent table definitions.
#[derive(Debug, Clone, PartialEq, Eq)]
pub struct MigrationPlan {
    /// The meta row, when the meta table is empty.
    pub meta: Option<MetaRow>,
    /// The default rules, when the rules table is empty.
    pub seed_rules: Vec<Rule>,
}

pub open spec fn default_rule_id(i: int) -> Seq<char> {
    if i == 0 {
        "followed_plan"@
    } else if i == 1 {
        "waited_confirmation"@
    } else if i == 2 {
        "traded_in_session"@
    } else if i == 3 {
        "respected_risk"@
    } else if i == 4 {
        "no_revenge"@
    } else if i == 5 {
        "no_fomo"@
    } else {
        "logged_immediately"@
    }
}

pub open spec fn default_rule_label(i: int) -> Seq<char> {
    if i == 0 {
        "Followed the trade plan"@
    } else if i == 1 {
        "Waited for confirmation"@
    } else if i == 2 {
        "Traded in my intended session"@
    } else if i == 3 {
        "Respected my risk limits"@
    } else if i == 4 {
        "Avoided revenge trading"@
    } else if i == 5 {
        "Avoided FOMO entries"@
    } else {
        "Logged the trade immediately"@
    }
}

pub const DEFAULT_RULE_COUNT: usize = 7;

pub open spec fn is_default_rules(r: Seq<Rule>) -> bool {
    &&& r.len() == DEFAULT_RULE_COUNT
    &&& forall|i: int|
        0 <= i < r.len() ==> #[trigger] r[i].id@ == default_rule_id(i) && r[i].label@
            == default_rule_label(i) && r[i].sort_order == i
}

fn default_rule(id: &str, label: &str, order: i64) -> (r: Rule)
    ensures
        r.id@ == id@,
        r.label@ == label@,
        r.sort_order == order,
{
    Rule { id: id.to_owned(), label: label.to_owned(), sort_order: order }
}

/// The default checklist rules to seed: all of them, in order, when the
/// rules table holds none; none otherwise, so that user edits stay.
pub fn seed_default_rules(existing_rules: i64) -> (r: Vec<Rule>)
    ensures
        existing_rules > 0 ==> r@.len() == 0,
        existing_rules <= 0 ==> is_default_rules(r@),
{
    let mut r: Vec<Rule> = Vec::new();
    if existing_rules > 0 {
        return r;
    }
    r.push(default_rule("followed_plan", "Followed the trade plan", 0));
    r.push(default_rule("waited_confirmation", "Waited for confirmation", 1));
    r.push(default_rule("traded_in_session", "Traded in my intended session", 2));
    r.push(default_rule("respected_risk", "Respected my risk limits", 3));
    r.push(default_rule("no_revenge", "Avoided revenge trading", 4));
    r.push(default_rule("no_fomo", "Avoided FOMO entries", 5));
    r.push(default_rule("logged_immediately", "Logged the trade immediately", 6));
    r
}

/// Decides what a migration writes from the current row counts of the meta
/// and rules tables.
pub fn plan_migration(meta_rows: i64, rule_rows: i64) -> (r: MigrationPlan)
    ensures
        meta_rows == 0 <==> r.meta is Some,
        r.meta matches Some(m) ==> m.schema_version == crate::config::SCHEMA_VERSION,
        rule_rows > 0 ==> r.seed_rules@.len() == 0,
        rule_rows <= 0 ==> is_default_rules(r.seed_rules@),
{
    let meta = if meta_rows == 0 {
        Some(MetaRow { schema_version: crate::config::SCHEMA_VERSION, created_at_utc: now_millis() })
    } else {
        None
    };
    MigrationPlan { meta, seed_rules: seed_default_rules(rule_rows) }
}

impl<C> DbState<C> {
    /// The open handle, if any.
    pub closed spec fn handle(&self) -> Option<C> {
        self.conn
    }

    /// The configured store path, if any.
    pub closed spec fn path(&self) -> Option<String> {
        self.db_path
    }

    /// Whether the configured store is encrypted.
    pub closed spec fn is_encrypted(&self) -> bool {
        self.encrypted
    }

    /// An unconfigured, locked state.
    pub fn new() -> (r: Self)
        ensures
            r.handle() is None,
            r.path() is None,
            !r.is_encrypted(),
    {
        DbState { conn: None, encrypted: false, db_path: None }
    }

    pub fn status(&self) -> (r: DbStatus)
        ensures
            r == (DbStatus {
                configured: self.path() is Some,
                encrypted: self.is_encrypted(),
                unlocked: self.handle() is Some,
            }),
    {
        DbStatus {
            configured: self.db_path.is_some(),
            encrypted: self.encrypted,
            unlocked: self.conn.is_some(),
        }
    }

    /// Records the store's path and encryption; leaves the handle as it is.
    pub fn configure(&mut self, db_path: String, encrypted: bool)
        ensures
            final(self).path() == Some(db_path),
            final(self).is_encrypted() == encrypted,
            final(self).handle() == old(self).handle(),
    {
        self.db_path = Some(db_path);
        self.encrypted = encrypted;
    }

    /// Drops the handle; the store is locked afterwards.
    pub fn close(&mut self)
        ensures
            final(self).handle() is None,
            final(self).path() == old(self).path(),
            final(self).is_encrypted() == old(self).is_encrypted(),
    {
        self.conn = None;
    }

    /// Installs a handle that was opened, set up and migrated.
    pub fn attach(&mut self, conn: C)
        ensures
            final(self).handle() == Some(conn),
            final(self).path() == old(self).path(),
            final(self).is_encrypted() == old(self).is_encrypted(),
    {
        self.conn = Some(conn);
    }

    /// Runs `f` on the open handle; `Locked` when there is none.
    pub fn with_conn<T, F: FnOnce(&C) -> Result<T, StoreError>>(&self, f: F) -> (r: Result<T, StoreError>)
        requires
            self.handle() matches Some(c) ==> f.requires((&c,)),
        ensures
            self.handle() is None ==> r == Err::<T, StoreError>(StoreError::Locked),
            self.handle() matches Some(c) ==> f.ensures((&c,), r),
    {
        match &self.conn {
            None => Err(StoreError::Locked),
            Some(c) => f(c),
        }
    }

    /// Decides whether a new store may be created, and how its handle is
    /// set up: never over an existing file, and only with a passphrase when
    /// encrypted.
    pub fn create_new(path_exists: bool, encrypted: bool, passphrase: Option<String>) -> (r: Result<
        Vec<SetupStep>,
        StoreError,
    >)
        ensures
            path_exists ==> r == Err::<Vec<SetupStep>, StoreError>(StoreError::AlreadyExists),
            !path_exists ==> match open_steps(encrypted, passphrase) {
                Ok(s) => r matches Ok(v) && v@ == s,
                Err(e) => r == Err::<Vec<SetupStep>, StoreError>(e),
            },
    {
        if path_exists {
            return Err(StoreError::AlreadyExists);
        }
        setup(encrypted, passphrase)
    }

    /// How the handle of an existing store is set up: as for a new one,
    /// then a probe read, so that a wrong passphrase fails before use.
    pub fn open_existing(encrypted: bool, passphrase: Option<String>) -> (r: Result<
        Vec<SetupStep>,
        StoreError,
    >)
        ensures
            match open_steps(encrypted, passphrase) {
                Ok(s) => r matches Ok(v) && v@ == s.push(SetupStep::Probe),
                Err(e) => r == Err::<Vec<SetupStep>, StoreError>(e),
            },
    {
        match setup(encrypted, passphrase) {
            Err(e) => Err(e),
            Ok(mut steps) => {
                steps.push(SetupStep::Probe);
                Ok(steps)
            },
        }
    }
}

impl<C> Default for DbState<C> {
    fn default() -> (r: Self)
        ensures
            r.handle() is None,
            r.path() is None,
            !r.is_encrypted(),
    {
        Self::new()
    }
}

} // verus!
