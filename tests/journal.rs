use ftjournal::error::{StoreError, TimezoneError};
use ftjournal::journal::{
    day_bounds, day_trades, month_bounds, month_summary, summarize_days, trades_within,
    DaySummary, TradeHighlight,
};
use ftjournal::journal_entries::{get_daily_entry, upsert_daily_entry, DailyUpsert};
use ftjournal::tz::LocalDate;

const NY: &str = "America/New_York";

fn date(y: i32, m: u32, d: u32) -> LocalDate {
    LocalDate { year: y, month: m, day: d }
}

fn hl(id: &str, exit: i64) -> TradeHighlight {
    TradeHighlight {
        id: id.to_string(),
        symbol: "ES".to_string(),
        qty: 1,
        pnl_net: 10,
        notes: String::new(),
        exit_time_utc: exit,
    }
}

#[test]
fn month_bounds_new_york() {
    assert_eq!(month_bounds(NY, 2024, 3), Ok((1709269200000, 1711944000000)));
}

#[test]
fn month_bounds_december_rolls_year() {
    assert_eq!(month_bounds("UTC", 2023, 12), Ok((1701388800000, 1704067200000)));
}

#[test]
fn month_bounds_unknown_zone() {
    assert_eq!(
        month_bounds("Mars/Olympus", 2024, 3),
        Err(StoreError::Timezone(TimezoneError::UnknownZone))
    );
}

#[test]
fn month_bounds_invalid_month() {
    assert_eq!(
        month_bounds(NY, 2024, 13),
        Err(StoreError::Timezone(TimezoneError::NoSingleInstant))
    );
}

#[test]
fn day_bounds_dst_day_is_23_hours() {
    let (s, e) = day_bounds(NY, "2024-03-10").unwrap();
    assert_eq!((s, e), (1710046800000, 1710129600000));
    assert_eq!(e - s, 23 * 3_600_000);
}

#[test]
fn day_bounds_fall_back_day_is_25_hours() {
    let (s, e) = day_bounds(NY, "2024-11-03").unwrap();
    assert_eq!((s, e), (1730606400000, 1730696400000));
    assert_eq!(e - s, 25 * 3_600_000);
}

#[test]
fn day_bounds_month_and_year_end() {
    assert_eq!(day_bounds("UTC", "2024-02-29"), Ok((1709164800000, 1709251200000)));
    assert_eq!(day_bounds("UTC", "2023-12-31"), Ok((1703980800000, 1704067200000)));
}

#[test]
fn day_bounds_invalid_date() {
    assert_eq!(day_bounds(NY, "2024-02-30"), Err(StoreError::InvalidDate));
    assert_eq!(day_bounds(NY, "yesterday"), Err(StoreError::InvalidDate));
}

#[test]
fn day_bounds_skipped_midnight() {
    assert_eq!(
        day_bounds("America/Santiago", "2024-09-08"),
        Err(StoreError::Timezone(TimezoneError::NoSingleInstant))
    );
}

#[test]
fn day_trades_across_dst_change() {
    let rows = vec![
        hl("late", 1710127800000),
        hl("next_day", 1710131400000),
        hl("noon", 1710086400000),
        hl("before", 1710046800000 - 1),
        hl("start", 1710046800000),
    ];
    let got = day_trades(NY, "2024-03-10", rows).unwrap();
    let ids: Vec<&str> = got.iter().map(|t| t.id.as_str()).collect();
    assert_eq!(ids, vec!["start", "noon", "late"]);
}

#[test]
fn day_trades_bad_zone() {
    assert_eq!(
        day_trades("Nowhere", "2024-03-10", vec![]),
        Err(StoreError::Timezone(TimezoneError::UnknownZone))
    );
}

#[test]
fn trades_within_keeps_order() {
    let got = trades_within(&vec![hl("a", 5), hl("b", 1), hl("c", 10), hl("d", 3)], 1, 10);
    let ids: Vec<&str> = got.iter().map(|t| t.id.as_str()).collect();
    assert_eq!(ids, vec!["a", "b", "d"]);
}

#[test]
fn month_summary_groups_by_local_date() {
    let rows = vec![
        (1709733600000, 50),
        (1709650800000, 100),
        (1709686800000, -30),
        (1709265600000, 1000),
        (1711945800000, 1000),
    ];
    let got = month_summary(NY, 2024, 3, &rows).unwrap();
    assert_eq!(
        got,
        vec![
            DaySummary { date_local: date(2024, 3, 5), trade_count: 2, pnl_net_total: 70 },
            DaySummary { date_local: date(2024, 3, 6), trade_count: 1, pnl_net_total: 50 },
        ]
    );
}

#[test]
fn month_summary_empty() {
    assert_eq!(month_summary(NY, 2024, 3, &vec![]), Ok(vec![]));
}

#[test]
fn month_summary_bad_zone() {
    assert_eq!(
        month_summary("Bad/Zone", 2024, 3, &vec![(1, 1)]),
        Err(StoreError::Timezone(TimezoneError::UnknownZone))
    );
}

#[test]
fn summarize_days_sorts_and_sums() {
    let dated = vec![
        (date(2024, 5, 2), 5),
        (date(2023, 12, 31), -1),
        (date(2024, 5, 2), i64::MAX),
        (date(2024, 5, 2), i64::MAX),
        (date(2024, 1, 15), 7),
    ];
    let got = summarize_days(&dated);
    assert_eq!(
        got,
        vec![
            DaySummary { date_local: date(2023, 12, 31), trade_count: 1, pnl_net_total: -1 },
            DaySummary { date_local: date(2024, 1, 15), trade_count: 1, pnl_net_total: 7 },
            DaySummary {
                date_local: date(2024, 5, 2),
                trade_count: 3,
                pnl_net_total: 5 + 2 * (i64::MAX as i128),
            },
        ]
    );
}

#[test]
fn daily_entry_defaults_to_empty() {
    let e = get_daily_entry("2024-03-05".to_string(), None);
    assert_eq!(e.date_local, "2024-03-05");
    assert_eq!(e.text, "");
    let e = get_daily_entry("2024-03-05".to_string(), Some("calm day".to_string()));
    assert_eq!(e.text, "calm day");
}

#[test]
fn daily_upsert_updates_existing() {
    assert_eq!(upsert_daily_entry(Some("e1".to_string())), DailyUpsert::Update("e1".to_string()));
    match upsert_daily_entry(None) {
        DailyUpsert::Insert(id) => assert!(!id.is_empty()),
        other => panic!("expected insert, got {:?}", other),
    }
}

#[test]
fn month_summary_counts_every_trade_in_range() {
    let rows = vec![(1709650800000, 1), (1709686800000, 2), (1709733600000, 3), (1709265600000, 4)];
    let got = month_summary(NY, 2024, 3, &rows).unwrap();
    let total: usize = got.iter().map(|d| d.trade_count).sum();
    assert_eq!(total, 3);
}
