use vstd::prelude::*;

use crate::error::{StoreError, TimezoneError};
use crate::sorting::{sort_by_key, sorted_by_key, SortKey};
use crate::tz::{
    date_fields, is_zone_name, local_date, local_midnight, midnight, midnight_after, next_day,
    parse_date, zone_known, zone_local_date, LocalDate,
};

verus! {

/// Trade count and summed net profit/loss of one local calendar date.
#[derive(Debug, Clone, Copy, PartialEq, Eq, Structural)]
pub struct DaySummary {
    pub date_local: LocalDate,
    pub trade_count: usize,
    pub pnl_net_total: i128,
}

pub open spec fn date_lt(a: LocalDate, b: LocalDate) -> bool {
    a.year < b.year || (a.year == b.year && (a.month < b.month || (a.month == b.month && a.day
        < b.day)))
}

/// Whether one date comes before another.
pub fn date_before(a: &LocalDate, b: &LocalDate) -> (r: bool)
    ensures
        r == date_lt(*a, *b),
{
    a.year < b.year || (a.year == b.year && (a.month < b.month || (a.month == b.month && a.day
        < b.day)))
}

/// How many of the dated amounts fall on `d`.
pub open spec fn count_on(s: Seq<(LocalDate, i64)>, d: LocalDate) -> nat
    decreases s.len(),
{
    if s.len() == 0 {
        0
    } else {
        count_on(s.drop_last(), d) + if s.last().0 == d {
            1nat
        } else {
            0nat
        }
    }
}

/// The sum of the dated amounts that fall on `d`.
pub open spec fn total_on(s: Seq<(LocalDate, i64)>, d: LocalDate) -> int
    decreases s.len(),
{
    if s.len() == 0 {
        0
    } else {
        total_on(s.drop_last(), d) + if s.last().0 == d {
            s.last().1 as int
        } else {
            0
        }
    }
}

/// `out` holds one entry per date among the dated amounts, in ascending
/// date order, each with the count and the sum of the amounts on it.
pub open spec fn summarizes(out: Seq<DaySummary>, s: Seq<(LocalDate, i64)>) -> bool {
    &&& forall|i: int, j: int|
        0 <= i < j < out.len() ==> date_lt(out[i].date_local, out[j].date_local)
    &&& forall|i: int|
        0 <= i < out.len() ==> {
            &&& #[trigger] out[i].trade_count >= 1
            &&& out[i].trade_count == count_on(s, out[i].date_local)
            &&& out[i].pnl_net_total == total_on(s, out[i].date_local)
        }
    &&& forall|k: int| 0 <= k < s.len() ==> has_date(out, #[trigger] s[k].0)
}

pub open spec fn has_date(out: Seq<DaySummary>, d: LocalDate) -> bool {
    exists|i: int| 0 <= i < out.len() && #[trigger] out[i].date_local == d
}

/// The number of amounts the entries count together.
pub open spec fn total_count(out: Seq<DaySummary>) -> int
    decreases out.len(),
{
    if out.len() == 0 {
        0
    } else {
        total_count(out.drop_last()) + out.last().trade_count
    }
}

proof fn lemma_total_count_update(s: Seq<DaySummary>, p: int, e: DaySummary)
    requires
        0 <= p < s.len(),
    ensures
        total_count(s.update(p, e)) == total_count(s) - s[p].trade_count + e.trade_count,
    decreases s.len(),
{
    if p == s.len() - 1 {
        assert(s.update(p, e).drop_last() =~= s.drop_last());
    } else {
        assert(s.update(p, e).drop_last() =~= s.drop_last().update(p, e));
        lemma_total_count_update(s.drop_last(), p, e);
    }
}

proof fn lemma_total_count_insert(s: Seq<DaySummary>, p: int, e: DaySummary)
    requires
        0 <= p <= s.len(),
    ensures
        total_count(s.insert(p, e)) == total_count(s) + e.trade_count,
    decreases s.len(),
{
    if p == s.len() {
        assert(s.insert(p, e).drop_last() =~= s);
    } else {
        assert(s.insert(p, e).drop_last() =~= s.drop_last().insert(p, e));
        lemma_total_count_insert(s.drop_last(), p, e);
    }
}

pub open spec fn total_bounded(e: DaySummary) -> bool {
    &&& -(e.trade_count as int) * 0x8000_0000_0000_0000 <= e.pnl_net_total
    &&& e.pnl_net_total <= (e.trade_count as int) * 0x7fff_ffff_ffff_ffff
}

/// Groups amounts by local date: one entry per date, ascending, with the
/// number of amounts on that date and their sum.
pub fn summarize_days(dated: &Vec<(LocalDate, i64)>) -> (r: Vec<DaySummary>)
    ensures
        summarizes(r@, dated@),
        total_count(r@) == dated@.len(),
{
    let mut out: Vec<DaySummary> = Vec::new();
    let mut k: usize = 0;
    proof {
        assert(dated@.subrange(0, 0) =~= Seq::<(LocalDate, i64)>::empty());
    }
    while k < dated.len()
        invariant
            k <= dated.len(),
            summarizes(out@, dated@.subrange(0, k as int)),
            total_count(out@) == k,
            forall|i: int|
                0 <= i < out.len() ==> #[trigger] out@[i].trade_count <= k && total_bounded(out@[i]),
        decreases dated.len() - k,
    {
        let (date, pnl) = dated[k];
        let ghost prev = dated@.subrange(0, k as int);
        let ghost next = dated@.subrange(0, k + 1);
        proof {
            assert(next.drop_last() =~= prev);
            assert(next.last() == (date, pnl));
        }
        let mut p: usize = 0;
        while p < out.len() && date_before(&out[p].date_local, &date)
            invariant
                p <= out.len(),
                forall|q: int| 0 <= q < p ==> date_lt(#[trigger] out@[q].date_local, date),
            decreases out.len() - p,
        {
            p = p + 1;
        }
        let ghost before = out@;
        if p < out.len() && out[p].date_local == date {
            let e = out[p];
            let count = e.trade_count + 1;
            let total = e.pnl_net_total + pnl as i128;
            proof {
                assert(total_bounded(e));
                assert(-(count as int) * 0x8000_0000_0000_0000 == -(e.trade_count as int)
                    * 0x8000_0000_0000_0000 - 0x8000_0000_0000_0000) by (nonlinear_arith)
                    requires count == e.trade_count + 1;
                assert((count as int) * 0x7fff_ffff_ffff_ffff == (e.trade_count as int)
                    * 0x7fff_ffff_ffff_ffff + 0x7fff_ffff_ffff_ffff) by (nonlinear_arith)
                    requires count == e.trade_count + 1;
            }
            out.set(p, DaySummary { date_local: date, trade_count: count, pnl_net_total: total });
            proof {
                lemma_total_count_update(before, p as int, out@[p as int]);
                assert(out@ == before.update(p as int, out@[p as int]));
                assert forall|i: int| 0 <= i < out@.len() implies #[trigger] out@[i].trade_count
                    == count_on(next, out@[i].date_local) && out@[i].pnl_net_total == total_on(
                    next,
                    out@[i].date_local,
                ) by {
                    let d = out@[i].date_local;
                    assert(count_on(next, d) == count_on(prev, d) + if date == d {
                        1nat
                    } else {
                        0nat
                    });
                    assert(total_on(next, d) == total_on(prev, d) + if date == d {
                        pnl as int
                    } else {
                        0
                    });
                    assert(before[i].trade_count >= 1);
                    if i == p {
                        assert(e == before[i]);
                    } else {
                        assert(out@[i] == before[i]);
                        if i < p {
                            assert(date_lt(before[i].date_local, date));
                        } else {
                            assert(date_lt(before[p as int].date_local, before[i].date_local));
                        }
                    }
                }
                assert forall|m: int| 0 <= m < next.len() implies has_date(out@, #[trigger] next[m].0) by {
                    if m < k {
                        assert(next[m] == prev[m]);
                        assert(has_date(before, prev[m].0));
                        let i = choose|i: int| 0 <= i < before.len() && before[i].date_local == prev[m].0;
                        assert(out@[i].date_local == before[i].date_local);
                        assert(has_date(out@, next[m].0));
                    } else {
                        assert(out@[p as int].date_local == next[m].0);
                        assert(has_date(out@, next[m].0));
                    }
                }
            }
        } else {
            proof {
                if p < out.len() {
                    assert(out@[p as int].date_local != date);
                    assert(!date_lt(out@[p as int].date_local, date));
                    assert(date_lt(date, out@[p as int].date_local));
                }
                assert(count_on(prev, date) == 0) by {
                    if count_on(prev, date) > 0 {
                        lemma_count_on_positive(prev, date);
                        let m = choose|m: int| 0 <= m < prev.len() && prev[m].0 == date;
                        assert(has_date(before, prev[m].0));
                        let i = choose|i: int| 0 <= i < before.len() && before[i].date_local == prev[m].0;
                        if i < p {
                            assert(date_lt(before[i].date_local, date));
                        } else {
                            assert(i == p || date_lt(before[p as int].date_local, before[i].date_local));
                        }
                    }
                }
                lemma_total_on_zero(prev, date);
            }
            out.insert(p, DaySummary { date_local: date, trade_count: 1, pnl_net_total: pnl as i128 });
            proof {
                assert(out@ == before.insert(p as int, out@[p as int]));
                lemma_total_count_insert(before, p as int, out@[p as int]);
                assert forall|i: int, j: int| 0 <= i < j < out@.len() implies date_lt(
                    out@[i].date_local,
                    out@[j].date_local,
                ) by {
                    if j < p {
                    } else if j == p {
                    } else if i < p {
                        assert(out@[j] == before[j - 1]);
                        if j - 1 > p {
                            assert(date_lt(before[p as int].date_local, before[j - 1].date_local));
                        }
                    } else if i == p {
                        assert(out@[j] == before[j - 1]);
                        if j - 1 > p {
                            assert(date_lt(before[p as int].date_local, before[j - 1].date_local));
                        }
                    } else {
                        assert(out@[j] == before[j - 1]);
                        assert(out@[i] == before[i - 1]);
                    }
                }
                assert forall|i: int| 0 <= i < out@.len() implies {
                    &&& #[trigger] out@[i].trade_count >= 1
                    &&& out@[i].trade_count == count_on(next, out@[i].date_local)
                    &&& out@[i].pnl_net_total == total_on(next, out@[i].date_local)
                } by {
                    if i < p {
                        assert(out@[i] == before[i]);
                        assert(date_lt(before[i].date_local, date));
                    } else if i > p {
                        assert(out@[i] == before[i - 1]);
                        assert(date_lt(date, before[i - 1].date_local)) by {
                            if i - 1 > p {
                                assert(date_lt(before[p as int].date_local, before[i - 1].date_local));
                            }
                        }
                    }
                }
                assert forall|i: int| 0 <= i < out@.len() implies #[trigger] out@[i].trade_count
                    <= k + 1 && total_bounded(out@[i]) by {
                    if i < p {
                        assert(out@[i] == before[i]);
                    } else if i > p {
                        assert(out@[i] == before[i - 1]);
                    }
                }
                assert forall|m: int| 0 <= m < next.len() implies has_date(out@, #[trigger] next[m].0) by {
                    if m < k {
                        assert(next[m] == prev[m]);
                        assert(has_date(before, prev[m].0));
                        let i = choose|i: int| 0 <= i < before.len() && before[i].date_local == prev[m].0;
                        if i < p {
                            assert(out@[i] == before[i]);
                            assert(has_date(out@, next[m].0));
                        } else {
                            assert(out@[i + 1] == before[i]);
                            assert(has_date(out@, next[m].0));
                        }
                    } else {
                        assert(out@[p as int].date_local == next[m].0);
                        assert(has_date(out@, next[m].0));
                    }
                }
            }
        }
        k = k + 1;
    }
    proof {
        assert(dated@.subrange(0, dated@.len() as int) =~= dated@);
    }
    out
}

proof fn lemma_count_on_positive(s: Seq<(LocalDate, i64)>, d: LocalDate)
    requires
        count_on(s, d) > 0,
    ensures
        exists|m: int| 0 <= m < s.len() && s[m].0 == d,
    decreases s.len(),
{
    if s.last().0 != d {
        lemma_count_on_positive(s.drop_last(), d);
        let m = choose|m: int| 0 <= m < s.drop_last().len() && s.drop_last()[m].0 == d;
        assert(s[m] == s.drop_last()[m]);
    }
}

proof fn lemma_total_on_zero(s: Seq<(LocalDate, i64)>, d: LocalDate)
    requires
        count_on(s, d) == 0,
    ensures
        total_on(s, d) == 0,
    decreases s.len(),
{
    if s.len() > 0 {
        lemma_total_on_zero(s.drop_last(), d);
    }
}


/// A trade as listed for one day of the journal.
#[derive(Debug, Clone, PartialEq, Eq)]
pub struct TradeHighlight {
    pub id: String,
    pub symbol: String,
    pub qty: i64,
    pub pnl_net: i64,
    pub notes: String,
    pub exit_time_utc: i64,
}

impl SortKey for TradeHighlight {
    open spec fn spec_key(&self) -> int {
        self.exit_time_utc as int
    }

    fn sort_key(&self) -> (r: i64) {
        self.exit_time_utc
    }
}

/// The year and month after (y, m).
pub open spec fn next_month(y: int, m: int) -> (int, int) {
    if m == 12 {
        (y + 1, 1)
    } else {
        (y, m + 1)
    }
}

/// The half-open UTC range between two local midnights of a zone, or why
/// there is none.
pub open spec fn bounds_result(zone: Seq<char>, start: Option<i64>, end: Option<i64>) -> Result<
    (i64, i64),
    StoreError,
> {
    if !is_zone_name(zone) {
        Err(StoreError::Timezone(TimezoneError::UnknownZone))
    } else {
        match (start, end) {
            (Some(s), Some(e)) => Ok((s, e)),
            _ => Err(StoreError::Timezone(TimezoneError::NoSingleInstant)),
        }
    }
}

/// From local midnight of the first of a month to local midnight of the
/// first of the next month.
pub open spec fn month_range(zone: Seq<char>, year: int, month: int) -> Result<(i64, i64), StoreError> {
    let (ny, nm) = next_month(year, month);
    bounds_result(zone, local_midnight(zone, year, month, 1), local_midnight(zone, ny, nm, 1))
}

/// From local midnight of a `YYYY-MM-DD` date to local midnight of the
/// following date.
pub open spec fn day_range(zone: Seq<char>, date_local: Seq<char>) -> Result<(i64, i64), StoreError> {
    if !is_zone_name(zone) {
        Err(StoreError::Timezone(TimezoneError::UnknownZone))
    } else {
        match date_fields(date_local, "%Y-%m-%d"@) {
            None => Err(StoreError::InvalidDate),
            Some((y, m, d)) => {
                let (ny, nm, nd) = next_day(y as int, m as int, d as int);
                bounds_result(zone, local_midnight(zone, y as int, m as int, d as int), local_midnight(zone, ny, nm, nd))
            },
        }
    }
}

/// The UTC range `[start, end)` covering a month of local time in a zone.
pub fn month_bounds(zone: &str, year: i32, month: u32) -> (r: Result<(i64, i64), StoreError>)
    ensures
        r == month_range(zone@, year as int, month as int),
{
    if !zone_known(zone) {
        return Err(StoreError::Timezone(TimezoneError::UnknownZone));
    }
    let start = midnight(zone, year, month, 1);
    let end = if month == 12 {
        if year < i32::MAX {
            midnight(zone, year + 1, 1, 1)
        } else {
            None
        }
    } else if month < u32::MAX {
        midnight(zone, year, month + 1, 1)
    } else {
        None
    };
    match (start, end) {
        (Some(s), Some(e)) => Ok((s, e)),
        _ => Err(StoreError::Timezone(TimezoneError::NoSingleInstant)),
    }
}

/// The UTC range `[start, end)` covering a local `YYYY-MM-DD` date in a
/// zone, midnight to midnight; across a daylight-saving change it is not 24
/// hours long.
pub fn day_bounds(zone: &str, date_local: &str) -> (r: Result<(i64, i64), StoreError>)
    ensures
        r == day_range(zone@, date_local@),
{
    if !zone_known(zone) {
        return Err(StoreError::Timezone(TimezoneError::UnknownZone));
    }
    match parse_date(date_local, "%Y-%m-%d") {
        None => Err(StoreError::InvalidDate),
        Some((y, m, d)) => {
            let start = midnight(zone, y, m, d);
            let end = midnight_after(zone, y, m, d);
            match (start, end) {
                (Some(s), Some(e)) => Ok((s, e)),
                _ => Err(StoreError::Timezone(TimezoneError::NoSingleInstant)),
            }
        },
    }
}

pub open spec fn exits_within(start: i64, end: i64) -> spec_fn(TradeHighlight) -> bool {
    |t: TradeHighlight| start <= t.exit_time_utc && t.exit_time_utc < end
}

impl TradeHighlight {
    /// A field-by-field copy.
    pub fn copy(&self) -> (r: TradeHighlight)
        ensures
            r == *self,
    {
        TradeHighlight {
            id: self.id.clone(),
            symbol: self.symbol.clone(),
            qty: self.qty,
            pnl_net: self.pnl_net,
            notes: self.notes.clone(),
            exit_time_utc: self.exit_time_utc,
        }
    }
}

/// The trades whose exit falls in `[start, end)`, in their given order.
pub fn trades_within(rows: &Vec<TradeHighlight>, start: i64, end: i64) -> (r: Vec<TradeHighlight>)
    ensures
        r@ == rows@.filter(exits_within(start, end)),
{
    let mut out: Vec<TradeHighlight> = Vec::new();
    let mut i: usize = 0;
    while i < rows.len()
        invariant
            i <= rows.len(),
            out@ == rows@.subrange(0, i as int).filter(exits_within(start, end)),
        decreases rows.len() - i,
    {
        proof {
            assert(rows@.subrange(0, i + 1) =~= rows@.subrange(0, i as int).push(rows@[i as int]));
            rows@.subrange(0, i as int).lemma_filter_push(rows@[i as int], exits_within(start, end));
        }
        let keep = start <= rows[i].exit_time_utc && rows[i].exit_time_utc < end;
        assert(keep == exits_within(start, end)(rows@[i as int]));
        if keep {
            out.push(rows[i].copy());
        }
        i = i + 1;
    }
    proof {
        assert(rows@.subrange(0, rows@.len() as int) =~= rows@);
    }
    out
}

/// The trades of one local date in a zone: those whose exit falls between
/// that date's local midnight and the next one, in ascending exit order.
pub fn day_trades(zone: &str, date_local: &str, rows: Vec<TradeHighlight>) -> (r: Result<
    Vec<TradeHighlight>,
    StoreError,
>)
    ensures
        match day_range(zone@, date_local@) {
            Err(e) => r == Err::<Vec<TradeHighlight>, StoreError>(e),
            Ok((start, end)) => r matches Ok(v) && sorted_by_key(v@) && v@.to_multiset()
                == rows@.filter(exits_within(start, end)).to_multiset(),
        },
{
    match day_bounds(zone, date_local) {
        Err(e) => Err(e),
        Ok((start, end)) => Ok(sort_by_key(trades_within(&rows, start, end))),
    }
}

pub open spec fn exit_within(start: i64, end: i64, exit: i64) -> bool {
    start <= exit && exit < end
}

/// How many rows (exit instant, net amount) exit in `[start, end)`.
pub open spec fn window_count(rows: Seq<(i64, i64)>, start: i64, end: i64) -> nat
    decreases rows.len(),
{
    if rows.len() == 0 {
        0
    } else {
        window_count(rows.drop_last(), start, end) + if exit_within(start, end, rows.last().0) {
            1nat
        } else {
            0nat
        }
    }
}

/// Every row that exits in `[start, end)` has a local date in the zone.
pub open spec fn all_dated(zone: Seq<char>, rows: Seq<(i64, i64)>, start: i64, end: i64) -> bool {
    forall|i: int|
        0 <= i < rows.len() && exit_within(start, end, #[trigger] rows[i].0) ==> zone_local_date(
            zone,
            rows[i].0 as int,
        ) is Some
}

/// The dated net amounts of the rows (exit instant, net amount) whose exit
/// falls in `[start, end)`, in row order.
pub open spec fn dated_within(zone: Seq<char>, rows: Seq<(i64, i64)>, start: i64, end: i64) -> Seq<
    (LocalDate, i64),
>
    decreases rows.len(),
{
    if rows.len() == 0 {
        Seq::empty()
    } else {
        let rest = dated_within(zone, rows.drop_last(), start, end);
        let (exit, pnl) = rows.last();
        if exit_within(start, end, exit) {
            match zone_local_date(zone, exit as int) {
                Some((y, m, d)) => rest.push((LocalDate { year: y, month: m, day: d }, pnl)),
                None => rest,
            }
        } else {
            rest
        }
    }
}

/// Per-date trade counts and net totals of a month in a zone. `rows` are
/// (exit instant, net amount) pairs; those outside the month are left out,
/// and every one inside it is counted on its local date.
pub fn month_summary(zone: &str, year: i32, month: u32, rows: &Vec<(i64, i64)>) -> (r: Result<
    Vec<DaySummary>,
    StoreError,
>)
    ensures
        match month_range(zone@, year as int, month as int) {
            Err(e) => r == Err::<Vec<DaySummary>, StoreError>(e),
            Ok((start, end)) => if all_dated(zone@, rows@, start, end) {
                r matches Ok(v) && summarizes(v@, dated_within(zone@, rows@, start, end))
                    && total_count(v@) == window_count(rows@, start, end)
            } else {
                r == Err::<Vec<DaySummary>, StoreError>(
                    StoreError::Timezone(TimezoneError::OutOfRange),
                )
            },
        },
{
    match month_bounds(zone, year, month) {
        Err(e) => Err(e),
        Ok((start, end)) => {
            let mut dated: Vec<(LocalDate, i64)> = Vec::new();
            let mut i: usize = 0;
            while i < rows.len()
                invariant
                    i <= rows.len(),
                    dated@ == dated_within(zone@, rows@.subrange(0, i as int), start, end),
                    dated@.len() == window_count(rows@.subrange(0, i as int), start, end),
                    all_dated(zone@, rows@.subrange(0, i as int), start, end),
                    month_range(zone@, year as int, month as int) == Ok::<(i64, i64), StoreError>(
                        (start, end),
                    ),
                decreases rows.len() - i,
            {
                let (exit, pnl) = rows[i];
                let ghost prefix = rows@.subrange(0, i as int);
                let ghost next = rows@.subrange(0, i + 1);
                proof {
                    assert(next.drop_last() =~= prefix);
                    assert(next.last() == rows@[i as int]);
                }
                if start <= exit && exit < end {
                    match local_date(zone, exit) {
                        Some(date) => {
                            dated.push((date, pnl));
                        },
                        None => {
                            proof {
                                assert(exit_within(start, end, rows@[i as int].0));
                                assert(!all_dated(zone@, rows@, start, end));
                            }
                            return Err(StoreError::Timezone(TimezoneError::OutOfRange));
                        },
                    }
                }
                proof {
                    assert forall|j: int|
                        0 <= j < next.len() && exit_within(start, end, #[trigger] next[j].0)
                            implies zone_local_date(zone@, next[j].0 as int) is Some by {
                        if j < i {
                            assert(next[j] == prefix[j]);
                        }
                    }
                }
                i = i + 1;
            }
            proof {
                assert(rows@.subrange(0, rows@.len() as int) =~= rows@);
            }
            Ok(summarize_days(&dated))
        },
    }
}

} // verus!
