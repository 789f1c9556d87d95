use ftjournal::db::{DbState, SetupStep};
use ftjournal::trades::{create_trade, RuleCheck, TradeInput};
use rusqlite::Connection;

const TABLES: &str = "
CREATE TABLE trades (id TEXT PRIMARY KEY);
CREATE TABLE rules (id TEXT PRIMARY KEY);
CREATE TABLE trade_rules (
    trade_id TEXT NOT NULL,
    rule_id TEXT NOT NULL,
    checked INTEGER NOT NULL,
    PRIMARY KEY (trade_id, rule_id),
    FOREIGN KEY (trade_id) REFERENCES trades(id) ON DELETE CASCADE,
    FOREIGN KEY (rule_id) REFERENCES rules(id) ON DELETE CASCADE
);
";

fn input() -> TradeInput {
    TradeInput {
        market: "futures".to_string(),
        symbol: "CL".to_string(),
        side: "short".to_string(),
        qty: 1,
        entry_time_utc: 10,
        exit_time_utc: 20,
        timezone: "UTC".to_string(),
        session: "other".to_string(),
        pnl_amount: -5,
        pnl_includes_fees: false,
        fees: 1,
        notes: String::new(),
        rules_checked: Some(vec![RuleCheck { rule_id: "r2".to_string(), checked: true }]),
    }
}

fn links_of(conn: &Connection, id: &str) -> i64 {
    conn.query_row("SELECT COUNT(*) FROM trade_rules WHERE trade_id = ?1", (id,), |r| r.get(0))
        .unwrap()
}

#[test]
fn deleting_a_trade_removes_its_links() {
    let conn = Connection::open_in_memory().unwrap();
    let steps = DbState::<Connection>::create_new(false, false, None).unwrap();
    assert_eq!(steps[0], SetupStep::ForeignKeysOn);
    conn.pragma_update(None, "foreign_keys", "ON").unwrap();
    conn.execute_batch(TABLES).unwrap();
    let rule_ids = vec!["r1".to_string(), "r2".to_string(), "r3".to_string()];
    for r in &rule_ids {
        conn.execute("INSERT INTO rules (id) VALUES (?1)", (r,)).unwrap();
    }
    let mut ids = Vec::new();
    for _ in 0..2 {
        let new = create_trade(input(), &rule_ids).unwrap();
        conn.execute("INSERT INTO trades (id) VALUES (?1)", (&new.trade.id,)).unwrap();
        for link in &new.checklist {
            conn.execute(
                "INSERT INTO trade_rules (trade_id, rule_id, checked) VALUES (?1, ?2, ?3)",
                (&new.trade.id, &link.rule_id, link.checked),
            )
            .unwrap();
        }
        ids.push(new.trade.id);
    }
    assert_eq!(links_of(&conn, &ids[0]), 3);
    conn.execute("DELETE FROM trades WHERE id = ?1", (&ids[0],)).unwrap();
    assert_eq!(links_of(&conn, &ids[0]), 0);
    assert_eq!(links_of(&conn, &ids[1]), 3);
    let orphans: i64 = conn
        .query_row(
            "SELECT COUNT(*) FROM trade_rules WHERE trade_id NOT IN (SELECT id FROM trades)",
            (),
            |r| r.get(0),
        )
        .unwrap();
    assert_eq!(orphans, 0);
}
