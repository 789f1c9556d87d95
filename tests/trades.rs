use ftjournal::error::{StoreError, ValidationError};
use ftjournal::rules::Rule;
use ftjournal::trades::{
    create_trade, derive_pnl, get_trade_with_rules, new_trade, seed_checklist, update_trade,
    validate_trade, RuleCheck, Trade, TradeInput,
};

fn input() -> TradeInput {
    TradeInput {
        market: "futures".to_string(),
        symbol: "ES".to_string(),
        side: "long".to_string(),
        qty: 2,
        entry_time_utc: 1_000,
        exit_time_utc: 2_000,
        timezone: "America/New_York".to_string(),
        session: "ny".to_string(),
        pnl_amount: 100,
        pnl_includes_fees: true,
        fees: 10,
        notes: "clean".to_string(),
        rules_checked: None,
    }
}

fn check(id: &str, checked: bool) -> RuleCheck {
    RuleCheck { rule_id: id.to_string(), checked }
}

#[test]
fn pnl_includes_fees() {
    assert_eq!(derive_pnl(100, 10, true), (100, 110));
}

#[test]
fn pnl_excludes_fees() {
    assert_eq!(derive_pnl(100, 10, false), (90, 100));
}

#[test]
fn pnl_negative_amount() {
    assert_eq!(derive_pnl(-50, 5, false), (-55, -50));
    assert_eq!(derive_pnl(-50, 5, true), (-50, -45));
}

#[test]
fn valid_input_passes() {
    assert_eq!(validate_trade(&input()), Ok(()));
}

#[test]
fn blank_symbol_rejected() {
    let mut i = input();
    i.symbol = "  \t ".to_string();
    assert_eq!(validate_trade(&i), Err(StoreError::Validation(ValidationError::BlankSymbol)));
    i.symbol = String::new();
    assert_eq!(validate_trade(&i), Err(StoreError::Validation(ValidationError::BlankSymbol)));
}

#[test]
fn padded_symbol_accepted() {
    let mut i = input();
    i.symbol = "  NQ ".to_string();
    assert_eq!(validate_trade(&i), Ok(()));
}

#[test]
fn non_positive_quantity_rejected() {
    let mut i = input();
    i.qty = 0;
    assert_eq!(validate_trade(&i), Err(StoreError::Validation(ValidationError::NonPositiveQuantity)));
    i.qty = -3;
    assert_eq!(validate_trade(&i), Err(StoreError::Validation(ValidationError::NonPositiveQuantity)));
}

#[test]
fn exit_not_after_entry_rejected() {
    let mut i = input();
    i.exit_time_utc = i.entry_time_utc;
    assert_eq!(validate_trade(&i), Err(StoreError::Validation(ValidationError::ExitNotAfterEntry)));
    i.exit_time_utc = i.entry_time_utc - 1;
    assert_eq!(validate_trade(&i), Err(StoreError::Validation(ValidationError::ExitNotAfterEntry)));
}

#[test]
fn negative_fees_rejected() {
    let mut i = input();
    i.fees = -1;
    assert_eq!(validate_trade(&i), Err(StoreError::Validation(ValidationError::NegativeFees)));
}

#[test]
fn zero_fees_accepted() {
    let mut i = input();
    i.fees = 0;
    assert_eq!(validate_trade(&i), Ok(()));
}

#[test]
fn pnl_overflow_rejected() {
    let mut i = input();
    i.pnl_amount = i64::MAX;
    i.fees = 1;
    assert_eq!(validate_trade(&i), Err(StoreError::Validation(ValidationError::PnlOutOfRange)));
    i.pnl_includes_fees = false;
    assert_eq!(validate_trade(&i), Ok(()));
    i.pnl_amount = i64::MIN;
    assert_eq!(validate_trade(&i), Err(StoreError::Validation(ValidationError::PnlOutOfRange)));
}

#[test]
fn first_broken_rule_reported() {
    let mut i = input();
    i.symbol = " ".to_string();
    i.qty = 0;
    i.fees = -5;
    assert_eq!(validate_trade(&i), Err(StoreError::Validation(ValidationError::BlankSymbol)));
}

#[test]
fn new_trade_derives_fields() {
    let t = new_trade(input(), "t1".to_string(), 77).unwrap();
    assert_eq!(t.id, "t1");
    assert_eq!(t.symbol, "ES");
    assert_eq!(t.pnl_net, 100);
    assert_eq!(t.pnl_gross, 110);
    assert_eq!(t.created_at_utc, 77);
    assert_eq!(t.updated_at_utc, 77);
    assert_eq!(t.notes, "clean");
}

#[test]
fn create_seeds_one_link_per_rule() {
    let mut i = input();
    i.rules_checked = Some(vec![check("b", true), check("zzz", true)]);
    let rules = vec!["a".to_string(), "b".to_string(), "c".to_string()];
    let n = create_trade(i, &rules).unwrap();
    assert_eq!(n.checklist, vec![check("a", false), check("b", true), check("c", false)]);
    assert_eq!(n.trade.pnl_net, 100);
    assert_eq!(n.trade.pnl_gross, 110);
    assert_eq!(n.trade.created_at_utc, n.trade.updated_at_utc);
    assert!(!n.trade.id.is_empty());
}

#[test]
fn create_ids_are_fresh() {
    let a = create_trade(input(), &vec![]).unwrap();
    let b = create_trade(input(), &vec![]).unwrap();
    assert_ne!(a.trade.id, b.trade.id);
    assert!(a.checklist.is_empty());
}

#[test]
fn create_rejects_invalid() {
    let mut i = input();
    i.exit_time_utc = 0;
    assert_eq!(
        create_trade(i, &vec!["a".to_string()]),
        Err(StoreError::Validation(ValidationError::ExitNotAfterEntry))
    );
}

#[test]
fn seed_checklist_first_entry_counts() {
    let rules = vec!["a".to_string()];
    let req = Some(vec![check("a", true), check("a", false)]);
    assert_eq!(seed_checklist(&rules, &req), vec![check("a", true)]);
    assert_eq!(seed_checklist(&rules, &None), vec![check("a", false)]);
}

fn stored() -> Trade {
    new_trade(input(), "t9".to_string(), 5).unwrap()
}

#[test]
fn update_keeps_identity() {
    let mut i = input();
    i.pnl_includes_fees = false;
    i.rules_checked = Some(vec![check("a", true)]);
    let u = update_trade(Some(stored()), i, 99).unwrap();
    assert_eq!(u.trade.id, "t9");
    assert_eq!(u.trade.created_at_utc, 5);
    assert_eq!(u.trade.updated_at_utc, 99);
    assert_eq!(u.trade.pnl_net, 90);
    assert_eq!(u.trade.pnl_gross, 100);
    assert_eq!(u.checks, vec![check("a", true)]);
}

#[test]
fn update_missing_is_not_found() {
    assert_eq!(update_trade(None, input(), 1), Err(StoreError::NotFound));
}

#[test]
fn update_validates_first() {
    let mut i = input();
    i.qty = 0;
    assert_eq!(
        update_trade(None, i, 1),
        Err(StoreError::Validation(ValidationError::NonPositiveQuantity))
    );
}

fn rule(id: &str, order: i64) -> Rule {
    Rule { id: id.to_string(), label: id.to_uppercase(), sort_order: order }
}

#[test]
fn with_rules_orders_rules() {
    let w = get_trade_with_rules(
        Some(stored()),
        vec![rule("c", 2), rule("a", 0), rule("b", 1)],
        vec![check("b", true)],
    )
    .unwrap();
    let ids: Vec<&str> = w.rules.iter().map(|r| r.id.as_str()).collect();
    assert_eq!(ids, vec!["a", "b", "c"]);
    assert!(w.is_checked(&"b".to_string()));
    assert!(!w.is_checked(&"a".to_string()));
    assert_eq!(w.trade.id, "t9");
}

#[test]
fn with_rules_missing_trade() {
    assert_eq!(get_trade_with_rules(None, vec![], vec![]), Err(StoreError::NotFound));
}

#[test]
fn created_checklist_reads_back() {
    let rules = vec![rule("x", 1), rule("y", 0)];
    let ids: Vec<String> = rules.iter().map(|r| r.id.clone()).collect();
    let mut i = input();
    i.rules_checked = Some(vec![check("x", true)]);
    let n = create_trade(i, &ids).unwrap();
    let w = get_trade_with_rules(Some(n.trade), rules, n.checklist).unwrap();
    assert_eq!(w.checked.len(), 2);
    assert!(w.is_checked(&"x".to_string()));
    assert!(!w.is_checked(&"y".to_string()));
    assert_eq!(w.rules[0].id, "y");
}

#[test]
fn update_keeps_first_choice_per_rule() {
    let mut i = input();
    i.rules_checked = Some(vec![check("a", true), check("b", false), check("a", false)]);
    let u = update_trade(Some(stored()), i, 3).unwrap();
    assert_eq!(u.checks, vec![check("a", true), check("b", false)]);
}

#[test]
fn update_without_checklist_upserts_nothing() {
    let u = update_trade(Some(stored()), input(), 3).unwrap();
    assert!(u.checks.is_empty());
}

#[test]
fn first_per_rule_dedups() {
    let got = ftjournal::trades::first_per_rule(&vec![check("x", false), check("x", true)]);
    assert_eq!(got, vec![check("x", false)]);
}

#[test]
fn gross_exceeds_net_by_fees() {
    for &(a, f) in &[(100i64, 10i64), (-40, 3), (0, 0)] {
        for inc in [true, false] {
            let (net, gross) = derive_pnl(a, f, inc);
            assert_eq!(gross - net, f);
        }
    }
}
