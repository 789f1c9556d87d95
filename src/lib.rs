//! Core of a trading journal: trade validation and profit/loss derivation,
//! rule checklists, time-zone aware calendar bucketing, CSV row mapping and
//! the connection state machine that guards the on-disk store.
//!
//! Storage itself (SQL, files) is done by the caller: the functions here take
//! what was read and return what is to be written.

pub mod backup;
pub mod commands;
pub mod config;
pub mod csv_import;
pub mod db;
pub mod error;
pub mod journal;
pub mod journal_entries;
pub mod rules;
pub mod settings;
pub mod sorting;
pub mod text;
pub mod trades;
pub mod tz;

mod ids;
