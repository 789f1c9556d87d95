use vstd::prelude::*;

verus! {

/// Why a trade input was refused.
#[derive(Debug, Clone, Copy, PartialEq, Eq, Structural)]
pub enum ValidationError {
    BlankSymbol,
    NonPositiveQuantity,
    ExitNotAfterEntry,
    NegativeFees,
    /// Net or gross profit/loss would not fit in a signed 64-bit amount.
    PnlOutOfRange,
}

/// Why a local wall-clock time could not be turned into an instant.
#[derive(Debug, Clone, Copy, PartialEq, Eq, Structural)]
pub enum TimezoneError {
    /// The zone name is not a known IANA zone.
    UnknownZone,
    /// The local time does not exist, or exists twice, in the zone.
    NoSingleInstant,
    /// An instant whose local time lies outside the calendar's range.
    OutOfRange,
}

/// Errors of the journal store.
#[derive(Debug, Clone, PartialEq, Eq)]
pub enum StoreError {
    /// The application has not been initialised (no configuration).
    Configuration,
    /// No connection is open.
    Locked,
    /// A store file already exists where a new one was to be created.
    AlreadyExists,
    /// An encrypted store was opened without a passphrase.
    PassphraseRequired,
    /// Wrong passphrase or corrupt encrypted file.
    Crypto,
    Validation(ValidationError),
    NotFound,
    Timezone(TimezoneError),
    /// A stored setting that does not decode.
    InvalidSetting,
    /// A calendar date that does not parse as `YYYY-MM-DD`.
    InvalidDate,
    /// A CSV row gives neither an entry instant nor a local entry time.
    MissingEntryTime,
    /// A CSV row gives neither an exit instant nor a local exit time.
    MissingExitTime,
    /// A local date-time text in none of the accepted formats.
    UnsupportedDateTime,
    /// A CSV row that could not be decoded.
    Malformed(String),
    /// A file-system or storage failure.
    Io(String),
}

} // verus!
