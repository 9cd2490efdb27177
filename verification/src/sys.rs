//! Calls into the clock, the random id generator and the error library.

use crate::types::UtcInstant;
use vstd::prelude::*;

verus! {

/// The date (`YYYY-MM-DD`, UTC) of the instant `secs` seconds and `nanos`
/// nanoseconds after the Unix epoch; `None` where chrono holds no such instant.
pub uninterp spec fn utc_calendar_date(secs: i64, nanos: u32) -> Option<Seq<char>>;

/// Reads the system clock: `chrono::Utc::now()`, taken apart into its
/// `timestamp()` seconds and `timestamp_subsec_nanos()`. Nothing is claimed
/// of the value: it is whatever the clock says.
#[verifier::external_body]
pub fn now_utc() -> (res: UtcInstant) {
    let at = chrono::Utc::now();
    UtcInstant { secs: at.timestamp(), nanos: at.timestamp_subsec_nanos() }
}

/// A lower-case hexadecimal digit.
pub open spec fn is_lower_hex(c: char) -> bool {
    ('0' <= c && c <= '9') || ('a' <= c && c <= 'f')
}

/// The hyphenated lower-case text of a version-4 (random) UUID:
/// `xxxxxxxx-xxxx-4xxx-Yxxx-xxxxxxxxxxxx`, each `x` a hex digit and `Y` one
/// of `8`, `9`, `a`, `b` (the RFC 4122 variant).
pub open spec fn is_v4_uuid_text(s: Seq<char>) -> bool {
    &&& s.len() == 36
    &&& forall|i: int|
        0 <= i < 36 ==> if i == 8 || i == 13 || i == 18 || i == 23 {
            #[trigger] s[i] == '-'
        } else {
            is_lower_hex(s[i])
        }
    &&& s[14] == '4'
    &&& (s[19] == '8' || s[19] == '9' || s[19] == 'a' || s[19] == 'b')
}

/// A fresh random record id: `uuid::Uuid::new_v4()` in its `Display` form,
/// the hyphenated lower-case form, with the version and variant bits that
/// `new_v4` sets. Which id comes back is chance.
#[verifier::external_body]
pub fn new_record_id() -> (res: String)
    ensures
        is_v4_uuid_text(res@),
{
    uuid::Uuid::new_v4().to_string()
}

/// `chrono::DateTime::<Utc>::from_timestamp(secs, nanos)` formatted with
/// `%Y-%m-%d`; the claim is that the result is the name above applied to
/// `secs` and `nanos`.
#[verifier::external_body]
pub fn utc_date_text(secs: i64, nanos: u32) -> (res: Option<String>)
    ensures
        match res {
            Some(s) => utc_calendar_date(secs, nanos) == Some(s@),
            None => utc_calendar_date(secs, nanos) is None,
        },
{
    match chrono::DateTime::from_timestamp(secs, nanos) {
        Some(at) => Some(at.format("%Y-%m-%d").to_string()),
        None => None,
    }
}

/// `anyhow::Error::msg(message)`: an error whose `Display` prints exactly `message`.
#[verifier::external_body]
pub fn error_from_message(message: &str) -> (res: anyhow::Error)
    ensures
        forall|s: String|
            vstd::string::to_string_from_display_ensures::<anyhow::Error>(&res, s) <==> s@
                == message@,
{
    anyhow::Error::msg(message.to_string())
}

} // verus!
