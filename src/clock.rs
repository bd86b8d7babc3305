//! The current local time, formatted for the document's date entries.

use vstd::prelude::*;

verus! {

/// A broken-down time of the `time` crate.
#[verifier::external_type_specification]
#[verifier::external_body]
pub struct ExTm(time::Tm);

/// The error `time::strftime` returns for a format it does not accept.
#[verifier::external_type_specification]
#[verifier::external_body]
pub struct ExParseError(time::ParseError);

/// Relies on `time::now`: the current time in the local time zone. Nothing
/// is known of the value.
pub assume_specification[ time::now ]() -> time::Tm;

/// Relies on `time::strftime`: formats a time by a pattern, or fails on a
/// pattern or time it cannot format. The text depends on the time given,
/// of which nothing is known, so nothing is stated of it.
pub assume_specification[ time::strftime ](format: &str, tm: &time::Tm) -> Result<
    String,
    time::ParseError,
>;

/// The current local time as `YYYYMMDDHHmmSS` and the offset from UTC, or
/// `None` when it cannot be formatted.
pub fn timestamp() -> (r: Option<String>) {
    match time::strftime("%Y%m%d%H%M%S%z", &time::now()) {
        Ok(s) => Some(s),
        Err(_) => None,
    }
}

} // verus!
