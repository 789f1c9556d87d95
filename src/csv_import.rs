use vstd::prelude::*;

use crate::error::{StoreError, TimezoneError};
use crate::text::{blank, is_blank, trim, trim_of};
use crate::trades::TradeInput;
use crate::tz::{
    is_zone_name, local_instant, naive_fields, parse_naive, parse_rfc3339, rfc3339_millis,
    zone_known, zone_local_instant,
};

verus! {

/// One decoded CSV row. Instants are given either as UTC milliseconds or
/// as a local date-time text read in the importer's zone.
#[derive(Debug, Clone, PartialEq, Eq)]
pub struct CsvRow {
    pub symbol: String,
    pub side: String,
    pub qty: i64,
    pub entry_time_utc_ms: Option<i64>,
    pub exit_time_utc_ms: Option<i64>,
    pub entry_local: Option<String>,
    pub exit_local: Option<String>,
    pub market: Option<String>,
    pub session: Option<String>,
    pub pnl_amount: Option<i64>,
    pub fees: Option<i64>,
    pub pnl_includes_fees: Option<bool>,
    pub notes: Option<String>,
}

/// A row that could not be imported, with its 1-based line in the file
/// (the header is line 1).
#[derive(Debug, Clone, PartialEq, Eq)]
pub struct RowError {
    pub line: usize,
    pub error: StoreError,
}

/// Counts of created and skipped rows, and the errors of the others.
#[derive(Debug, Clone, PartialEq, Eq)]
pub struct CsvImportResult {
    pub created: usize,
    pub skipped: usize,
    pub errors: Vec<RowError>,
}

/// What to do with one row.
#[derive(Debug, Clone, PartialEq, Eq)]
pub enum RowPlan {
    /// The row has a blank symbol: count it as skipped.
    Skip,
    /// Create a trade from this input.
    Create(TradeInput),
    /// The row cannot be mapped to a trade input.
    Reject(StoreError),
}

/// How one row ended.
#[derive(Debug, Clone, PartialEq, Eq)]
pub enum RowOutcome {
    Skipped,
    Created,
    Failed(StoreError),
}

/// The fields of the first local format, most specific first, that reads
/// the text.
pub open spec fn first_local_fields(s: Seq<char>) -> Option<(i32, u32, u32, u32, u32, u32)> {
    match naive_fields(s, "%Y-%m-%dT%H:%M"@) {
        Some(f) => Some(f),
        None => match naive_fields(s, "%Y-%m-%d %H:%M:%S"@) {
            Some(f) => Some(f),
            None => naive_fields(s, "%Y-%m-%d %H:%M"@),
        },
    }
}

/// The instant a date-time text denotes: with an explicit offset as is,
/// otherwise as local time in the zone, which must occur there exactly
/// once.
pub open spec fn local_text_instant(zone: Seq<char>, s: Seq<char>) -> Result<i64, StoreError> {
    match rfc3339_millis(s) {
        Some(ms) => Ok(ms),
        None => match first_local_fields(s) {
            None => Err(StoreError::UnsupportedDateTime),
            Some((y, mo, d, h, mi, se)) => match zone_local_instant(
                zone,
                y as int,
                mo as int,
                d as int,
                h as int,
                mi as int,
                se as int,
            ) {
                Some(ms) => Ok(ms),
                None => Err(StoreError::Timezone(TimezoneError::NoSingleInstant)),
            },
        },
    }
}

fn local_fields(s: &str) -> (r: Option<(i32, u32, u32, u32, u32, u32)>)
    ensures
        r == first_local_fields(s@),
{
    if let Some(f) = parse_naive(s, "%Y-%m-%dT%H:%M") {
        return Some(f);
    }
    if let Some(f) = parse_naive(s, "%Y-%m-%d %H:%M:%S") {
        return Some(f);
    }
    parse_naive(s, "%Y-%m-%d %H:%M")
}

/// Reads a date-time text: first with an explicit offset, then as local
/// time in the zone in three formats from most to least specific; the
/// first format that reads it decides.
pub fn parse_local_dt(zone: &str, s: &str) -> (r: Result<i64, StoreError>)
    ensures
        r == local_text_instant(zone@, s@),
{
    if let Some(ms) = parse_rfc3339(s) {
        return Ok(ms);
    }
    match local_fields(s) {
        None => Err(StoreError::UnsupportedDateTime),
        Some((y, mo, d, h, mi, se)) => match local_instant(zone, y, mo, d, h, mi, se) {
            Some(ms) => Ok(ms),
            None => Err(StoreError::Timezone(TimezoneError::NoSingleInstant)),
        },
    }
}

/// An instant given directly, or else as a local text, or else missing.
pub open spec fn row_instant(zone: Seq<char>, utc_ms: Option<i64>, local: Option<String>, missing: StoreError) -> Result<i64, StoreError> {
    match utc_ms {
        Some(ms) => Ok(ms),
        None => match local {
            Some(s) => local_text_instant(zone, s@),
            None => Err(missing),
        },
    }
}

fn instant_of(zone: &str, utc_ms: Option<i64>, local: &Option<String>, missing: StoreError) -> (r: Result<i64, StoreError>)
    ensures
        r == row_instant(zone@, utc_ms, *local, missing),
{
    match utc_ms {
        Some(ms) => Ok(ms),
        None => match local {
            Some(s) => parse_local_dt(zone, s.as_str()),
            None => Err(missing),
        },
    }
}

/// The text of an optional field, or its default.
pub open spec fn text_or(v: Option<String>, default: Seq<char>) -> Seq<char> {
    match v {
        Some(s) => s@,
        None => default,
    }
}

fn string_or(v: &Option<String>, default: &str) -> (r: String)
    ensures
        r@ == text_or(*v, default@),
{
    match v {
        Some(s) => s.clone(),
        None => default.to_owned(),
    }
}

/// Why a row cannot be mapped, in the order the checks are made.
pub open spec fn row_mapping_error(row: CsvRow, zone: Seq<char>) -> Option<StoreError> {
    if !is_zone_name(zone) {
        Some(StoreError::Timezone(TimezoneError::UnknownZone))
    } else {
        match row_instant(zone, row.entry_time_utc_ms, row.entry_local, StoreError::MissingEntryTime) {
            Err(e) => Some(e),
            Ok(_) => match row_instant(zone, row.exit_time_utc_ms, row.exit_local, StoreError::MissingExitTime) {
                Err(e) => Some(e),
                Ok(_) => None,
            },
        }
    }
}

/// The trade input mapped from a row: trimmed symbol and side, both
/// instants resolved, the importer's zone, and defaults for what is absent.
pub open spec fn input_from_row(t: TradeInput, row: CsvRow, zone: Seq<char>) -> bool {
    &&& row_instant(zone, row.entry_time_utc_ms, row.entry_local, StoreError::MissingEntryTime) == Ok::<i64, StoreError>(t.entry_time_utc)
    &&& row_instant(zone, row.exit_time_utc_ms, row.exit_local, StoreError::MissingExitTime) == Ok::<i64, StoreError>(t.exit_time_utc)
    &&& t.market@ == text_or(row.market, "futures"@)
    &&& t.symbol@ == trim_of(row.symbol@)
    &&& t.side@ == trim_of(row.side@)
    &&& t.qty == row.qty
    &&& t.timezone@ == zone
    &&& t.session@ == text_or(row.session, "other"@)
    &&& t.pnl_amount == match row.pnl_amount {
        Some(a) => a,
        None => 0,
    }
    &&& t.pnl_includes_fees == match row.pnl_includes_fees {
        Some(b) => b,
        None => true,
    }
    &&& t.fees == match row.fees {
        Some(f) => f,
        None => 0,
    }
    &&& t.notes@ == text_or(row.notes, ""@)
    &&& t.rules_checked is None
}

/// Maps a row to a trade input in the importer's zone.
pub fn row_to_trade_input(row: &CsvRow, zone: &str) -> (r: Result<TradeInput, StoreError>)
    ensures
        match row_mapping_error(*row, zone@) {
            Some(e) => r == Err::<TradeInput, StoreError>(e),
            None => r matches Ok(t) && input_from_row(t, *row, zone@),
        },
{
    if !zone_known(zone) {
        return Err(StoreError::Timezone(TimezoneError::UnknownZone));
    }
    let entry = match instant_of(zone, row.entry_time_utc_ms, &row.entry_local, StoreError::MissingEntryTime) {
        Ok(ms) => ms,
        Err(e) => return Err(e),
    };
    let exit = match instant_of(zone, row.exit_time_utc_ms, &row.exit_local, StoreError::MissingExitTime) {
        Ok(ms) => ms,
        Err(e) => return Err(e),
    };
    Ok(TradeInput {
        market: string_or(&row.market, "futures"),
        symbol: trim(row.symbol.as_str()),
        side: trim(row.side.as_str()),
        qty: row.qty,
        entry_time_utc: entry,
        exit_time_utc: exit,
        timezone: zone.to_owned(),
        session: string_or(&row.session, "other"),
        pnl_amount: match row.pnl_amount {
            Some(a) => a,
            None => 0,
        },
        pnl_includes_fees: match row.pnl_includes_fees {
            Some(b) => b,
            None => true,
        },
        fees: match row.fees {
            Some(f) => f,
            None => 0,
        },
        notes: string_or(&row.notes, ""),
        rules_checked: None,
    })
}

/// What `plan_row` decides for a row.
pub open spec fn plans_row(plan: RowPlan, row: CsvRow, zone: Seq<char>) -> bool {
    if is_blank(row.symbol@) {
        plan == RowPlan::Skip
    } else {
        match row_mapping_error(row, zone) {
            Some(e) => plan == RowPlan::Reject(e),
            None => plan matches RowPlan::Create(t) && input_from_row(t, row, zone),
        }
    }
}

/// Decides a row: skip it when its symbol is blank, else map it.
pub fn plan_row(row: &CsvRow, zone: &str) -> (r: RowPlan)
    ensures
        plans_row(r, *row, zone@),
{
    if blank(row.symbol.as_str()) {
        return RowPlan::Skip;
    }
    match row_to_trade_input(row, zone) {
        Ok(t) => RowPlan::Create(t),
        Err(e) => RowPlan::Reject(e),
    }
}

/// The result after recording how the row at `index` (0-based, after the
/// header) ended.
pub open spec fn recorded(before: CsvImportResult, after: CsvImportResult, index: int, outcome: RowOutcome) -> bool {
    match outcome {
        RowOutcome::Skipped => after.skipped == before.skipped + 1 && after.created == before.created
            && after.errors@ == before.errors@,
        RowOutcome::Created => after.created == before.created + 1 && after.skipped == before.skipped
            && after.errors@ == before.errors@,
        RowOutcome::Failed(e) => after.created == before.created && after.skipped == before.skipped
            && after.errors@ == before.errors@.push(RowError { line: (index + 2) as usize, error: e }),
    }
}

impl CsvImportResult {
    pub fn new() -> (r: CsvImportResult)
        ensures
            r.created == 0,
            r.skipped == 0,
            r.errors@.len() == 0,
    {
        CsvImportResult { created: 0, skipped: 0, errors: Vec::new() }
    }

    /// Records how the row at `index` (0-based, after the header) ended; an
    /// error is kept with the row's line in the file.
    pub fn record(&mut self, index: usize, outcome: RowOutcome)
        requires
            index <= usize::MAX - 2,
            outcome is Skipped ==> old(self).skipped < usize::MAX,
            outcome is Created ==> old(self).created < usize::MAX,
        ensures
            recorded(*old(self), *final(self), index as int, outcome),
    {
        match outcome {
            RowOutcome::Skipped => {
                self.skipped = self.skipped + 1;
            },
            RowOutcome::Created => {
                self.created = self.created + 1;
            },
            RowOutcome::Failed(e) => {
                self.errors.push(RowError { line: index + 2, error: e });
            },
        }
    }
}


/// How a planned row ends without touching the store; a row to create ends
/// as the store decides.
pub open spec fn plan_outcome(plan: RowPlan) -> Option<RowOutcome> {
    match plan {
        RowPlan::Skip => Some(RowOutcome::Skipped),
        RowPlan::Reject(e) => Some(RowOutcome::Failed(e)),
        RowPlan::Create(_) => None,
    }
}

/// A row with a blank symbol is counted as skipped and adds no error.
pub proof fn lemma_blank_row_skipped(
    row: CsvRow,
    zone: Seq<char>,
    plan: RowPlan,
    outcome: RowOutcome,
    index: int,
    before: CsvImportResult,
    after: CsvImportResult,
)
    requires
        plans_row(plan, row, zone),
        is_blank(row.symbol@),
        plan_outcome(plan) == Some(outcome),
        recorded(before, after, index, outcome),
    ensures
        after.skipped == before.skipped + 1,
        after.created == before.created,
        after.errors@ == before.errors@,
{
}

/// A row whose date-time text is in none of the accepted formats adds
/// exactly one error, tagged with the row's 1-based line, and changes no
/// count.
pub proof fn lemma_unreadable_time_one_error(
    row: CsvRow,
    zone: Seq<char>,
    plan: RowPlan,
    outcome: RowOutcome,
    index: int,
    before: CsvImportResult,
    after: CsvImportResult,
)
    requires
        plans_row(plan, row, zone),
        !is_blank(row.symbol@),
        row_mapping_error(row, zone) == Some(StoreError::UnsupportedDateTime),
        plan_outcome(plan) == Some(outcome),
        recorded(before, after, index, outcome),
    ensures
        after.errors@ == before.errors@.push(
            RowError { line: (index + 2) as usize, error: StoreError::UnsupportedDateTime },
        ),
        after.created == before.created,
        after.skipped == before.skipped,
{
}

} // verus!
