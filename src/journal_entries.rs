use vstd::prelude::*;

use crate::ids::new_id;

verus! {

/// The daily journal text of a local date.
#[derive(Debug, Clone, PartialEq, Eq)]
pub struct JournalEntry {
    pub date_local: String,
    pub text: String,
}

/// How a daily entry is written.
#[derive(Debug, Clone, PartialEq, Eq)]
pub enum DailyUpsert {
    /// Replace the text of the existing entry with this id.
    Update(String),
    /// Insert a new entry under this fresh id.
    Insert(String),
}

/// The daily entry of a date from the stored text, if any; a date with no
/// entry reads as empty text.
pub fn get_daily_entry(date_local: String, stored_text: Option<String>) -> (r: JournalEntry)
    ensures
        r.date_local == date_local,
        match stored_text {
            Some(t) => r.text == t,
            None => r.text@.len() == 0,
        },
{
    let text = match stored_text {
        Some(t) => t,
        None => String::new(),
    };
    JournalEntry { date_local, text }
}

/// One daily entry per date: update the existing one, or insert a new one.
pub fn upsert_daily_entry(existing_id: Option<String>) -> (r: DailyUpsert)
    ensures
        match existing_id {
            Some(id) => r == DailyUpsert::Update(id),
            None => r is Insert,
        },
{
    match existing_id {
        Some(id) => DailyUpsert::Update(id),
        None => DailyUpsert::Insert(new_id()),
    }
}

} // verus!
