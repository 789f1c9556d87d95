use vstd::prelude::*;

use crate::error::StoreError;

verus! {

/// The zone used until the user picks one.
pub const DEFAULT_TIMEZONE: &'static str = "America/New_York";

/// The string that `serde_json::from_str::<String>` reads from a JSON text.
pub uninterp spec fn json_string_value(text: Seq<char>) -> Option<Seq<char>>;

/// The JSON text that `serde_json::to_string` writes for a string.
pub uninterp spec fn json_string_text(s: Seq<char>) -> Seq<char>;

/// Relies on `serde_json::from_str::<String>`: the string a JSON text
/// holds, or `None` when it holds no JSON string.
#[verifier::external_body]
fn decode_json_string(text: &str) -> (r: Option<String>)
    ensures
        match r {
            Some(v) => json_string_value(text@) == Some(v@),
            None => json_string_value(text@) is None,
        },
{
    serde_json::from_str::<String>(text).ok()
}

/// Relies on `serde_json::to_string`: a string as a JSON text. Writing a
/// string into memory cannot fail.
#[verifier::external_body]
fn encode_json_string(s: &str) -> (r: Option<String>)
    ensures
        r is Some,
        r matches Some(v) ==> v@ == json_string_text(s@),
{
    serde_json::to_string(s).ok()
}

/// The configured zone from the stored JSON value of the timezone setting;
/// the default zone when nothing is stored.
pub fn get_timezone(stored: Option<String>) -> (r: Result<String, StoreError>)
    ensures
        match stored {
            None => r matches Ok(z) && z@ == DEFAULT_TIMEZONE@,
            Some(text) => match json_string_value(text@) {
                Some(v) => r matches Ok(z) && z@ == v,
                None => r == Err::<String, StoreError>(StoreError::InvalidSetting),
            },
        },
{
    match stored {
        None => Ok(DEFAULT_TIMEZONE.to_owned()),
        Some(text) => match decode_json_string(text.as_str()) {
            Some(v) => Ok(v),
            None => Err(StoreError::InvalidSetting),
        },
    }
}

/// The JSON value stored for a timezone setting.
pub fn set_timezone(tz: &str) -> (r: Result<String, StoreError>)
    ensures
        r matches Ok(v) && v@ == json_string_text(tz@),
{
    match encode_json_string(tz) {
        Some(v) => Ok(v),
        None => Err(StoreError::InvalidSetting),
    }
}

} // verus!
