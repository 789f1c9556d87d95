use vstd::prelude::*;

use crate::db::DbStatus;
use crate::rules::Rule;
use crate::trades::TradeInput;

verus! {

/// The page size of a trade listing when none is asked for.
pub const DEFAULT_PAGE_SIZE: i64 = 200;

#[derive(Debug, Clone, Copy, PartialEq, Eq, Structural)]
pub struct AppStatus {
    pub db: DbStatus,
}

#[derive(Debug, Clone, PartialEq, Eq)]
pub struct Settings {
    pub timezone: String,
}

#[derive(Debug, Clone, PartialEq, Eq)]
pub struct SettingsUpdateRequest {
    pub timezone: String,
}

#[derive(Debug, Clone, PartialEq, Eq)]
pub struct RuleUpsertRequest {
    pub id: String,
    pub label: String,
    pub sort_order: i64,
}

#[derive(Debug, Clone, Copy, PartialEq, Eq, Structural)]
pub struct TradesListRequest {
    pub limit: Option<i64>,
    pub offset: Option<i64>,
}

#[derive(Debug, Clone, PartialEq, Eq)]
pub struct TradeUpdateRequest {
    pub id: String,
    pub input: TradeInput,
}

#[derive(Debug, Clone, PartialEq, Eq)]
pub struct DbInitRequest {
    pub encrypted: bool,
    pub passphrase: Option<String>,
}

#[derive(Debug, Clone, PartialEq, Eq)]
pub struct DbUnlockRequest {
    pub passphrase: Option<String>,
}

impl TradesListRequest {
    /// The (limit, offset) of the page asked for: 200 trades from the most
    /// recent unless given.
    pub fn page(&self) -> (r: (i64, i64))
        ensures
            r.0 == match self.limit {
                Some(l) => l,
                None => DEFAULT_PAGE_SIZE,
            },
            r.1 == match self.offset {
                Some(o) => o,
                None => 0,
            },
    {
        let limit = match self.limit {
            Some(l) => l,
            None => DEFAULT_PAGE_SIZE,
        };
        let offset = match self.offset {
            Some(o) => o,
            None => 0,
        };
        (limit, offset)
    }
}

impl RuleUpsertRequest {
    /// The rule this request writes.
    pub fn into_rule(self) -> (r: Rule)
        ensures
            r.id == self.id,
            r.label == self.label,
            r.sort_order == self.sort_order,
    {
        Rule { id: self.id, label: self.label, sort_order: self.sort_order }
    }
}

} // verus!
