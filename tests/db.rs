use ftjournal::config::{AppConfig, SCHEMA_VERSION};
use ftjournal::db::{plan_migration, seed_default_rules, DbState, DbStatus, SetupStep};
use ftjournal::error::StoreError;

#[test]
fn state_machine_transitions() {
    let mut s: DbState<u32> = DbState::default();
    assert_eq!(s.status(), DbStatus { configured: false, encrypted: false, unlocked: false });
    assert_eq!(s.with_conn(|c| Ok(*c)), Err(StoreError::Locked));
    s.configure("/tmp/j.db".to_string(), true);
    assert_eq!(s.status(), DbStatus { configured: true, encrypted: true, unlocked: false });
    s.attach(7);
    assert_eq!(s.status(), DbStatus { configured: true, encrypted: true, unlocked: true });
    assert_eq!(s.with_conn(|c| Ok(*c + 1)), Ok(8));
    s.close();
    assert_eq!(s.status(), DbStatus { configured: true, encrypted: true, unlocked: false });
    s.close();
    assert_eq!(s.with_conn(|c| Ok(*c)), Err(StoreError::Locked));
}

#[test]
fn configure_keeps_handle() {
    let mut s: DbState<u32> = DbState::new();
    s.attach(1);
    s.configure("a".to_string(), false);
    assert!(s.status().unlocked);
}

#[test]
fn create_refuses_existing_file() {
    assert_eq!(DbState::<u32>::create_new(true, false, None), Err(StoreError::AlreadyExists));
}

#[test]
fn create_plain_steps() {
    assert_eq!(
        DbState::<u32>::create_new(false, false, None),
        Ok(vec![SetupStep::ForeignKeysOn, SetupStep::JournalModeWal, SetupStep::SynchronousNormal])
    );
}

#[test]
fn encrypted_needs_passphrase() {
    assert_eq!(DbState::<u32>::create_new(false, true, None), Err(StoreError::PassphraseRequired));
    assert_eq!(DbState::<u32>::open_existing(true, None), Err(StoreError::PassphraseRequired));
}

#[test]
fn encrypted_open_steps() {
    assert_eq!(
        DbState::<u32>::open_existing(true, Some("pw".to_string())),
        Ok(vec![
            SetupStep::ForeignKeysOn,
            SetupStep::Key("pw".to_string()),
            SetupStep::CipherPageSize(4096),
            SetupStep::KdfIterations(64000),
            SetupStep::CipherHmacSha512,
            SetupStep::CipherKdfPbkdf2HmacSha512,
            SetupStep::VerifyKey,
            SetupStep::JournalModeWal,
            SetupStep::SynchronousNormal,
            SetupStep::Probe,
        ])
    );
}

#[test]
fn seeds_defaults_only_when_empty() {
    let r = seed_default_rules(0);
    assert_eq!(r.len(), 7);
    assert_eq!(r[0].id, "followed_plan");
    assert_eq!(r[0].label, "Followed the trade plan");
    assert_eq!(r[6].id, "logged_immediately");
    for (i, rule) in r.iter().enumerate() {
        assert_eq!(rule.sort_order, i as i64);
    }
    assert!(seed_default_rules(3).is_empty());
}

#[test]
fn migration_plan() {
    let p = plan_migration(0, 0);
    assert_eq!(p.meta.unwrap().schema_version, 1);
    assert_eq!(p.seed_rules.len(), 7);
    let p = plan_migration(1, 2);
    assert!(p.meta.is_none());
    assert!(p.seed_rules.is_empty());
}

#[test]
fn default_config() {
    let c = AppConfig::default_at("/data/j.db".to_string(), true);
    assert_eq!(c.db_path, "/data/j.db");
    assert!(c.encrypted);
    assert_eq!(c.schema_version, SCHEMA_VERSION);
}
