//! Calls into std and outside crates whose results the verified code consumes.
//! Each item here is trusted: its contract is believed, not proved.

use vstd::prelude::*;

verus! {

/// Declaration of `serde_json::Value`, carried through the library unopened.
#[verifier::external_type_specification]
#[verifier::external_body]
pub struct ExJsonValue(serde_json::Value);

/// Clone of a JSON value. serde_json derives `Clone` for `Value`, which
/// copies the whole tree, so the copy is the same value.
pub assume_specification[ <serde_json::Value as Clone>::clone ](v: &serde_json::Value) -> (r: serde_json::Value)
    ensures
        r == *v,
;

/// The text that `Display` prints for an HTTP status code: the code, a space,
/// and the canonical reason phrase (or `<unknown status code>`).
pub uninterp spec fn status_display(code: u16) -> Seq<char>;

/// The result of `str::to_lowercase` (full Unicode lower-casing).
pub uninterp spec fn lowercase(s: Seq<char>) -> Seq<char>;

/// Formats `reqwest::StatusCode::from_u16(code)` with `Display`.
/// `from_u16` accepts exactly the codes 100..=999. The `Display` impl of
/// `http::StatusCode` writes the number, a space and the reason phrase;
/// the contract names the whole text and states that it begins with the
/// three digits of the code and a space. The reason phrases are not stated.
#[verifier::external_body]
pub fn status_text(code: u16) -> (r: String)
    requires
        100 <= code <= 999,
    ensures
        r@ == status_display(code),
        r@.len() >= 4,
        r@.subrange(0, 4) == crate::text::decimal(code as nat).push(' '),
{
    match reqwest::StatusCode::from_u16(code) {
        Ok(status) => status.to_string(),
        Err(_) => String::new(),
    }
}

/// `str::to_lowercase`. Its result is named; on ASCII text it is stated:
/// the Unicode lower-case mapping sends `A`..`Z` to `a`..`z` and leaves every
/// other ASCII character as it is.
#[verifier::external_body]
pub fn to_lowercase(s: &str) -> (r: String)
    ensures
        r@ == lowercase(s@),
        crate::text::is_ascii_text(s@) ==> r@ == crate::text::ascii_lowercase(s@),
{
    s.to_lowercase()
}

/// `uuid::Uuid::new_v4()` formatted with `Display`, which writes the
/// hyphenated lower-case form: 32 hex digits in groups 8-4-4-4-12. `new_v4`
/// sets the version nibble to 4 and the two variant bits to `10`, so the
/// first digit of the fourth group is 8, 9, a or b. The other digits are
/// random and not stated.
#[verifier::external_body]
pub fn fresh_uuid() -> (r: String)
    ensures
        crate::text::is_uuid_v4_text(r@),
{
    uuid::Uuid::new_v4().to_string()
}

/// `chrono::Utc::now().timestamp_micros()`: microseconds since the Unix
/// epoch. The value is the wall clock. `Utc::now` builds a chrono instant, so
/// the value lies within chrono's range of instants; nothing else is stated.
#[verifier::external_body]
pub fn now_micros() -> (r: i64)
    ensures
        crate::services::auth::MIN_INSTANT_MICROS <= r <= crate::services::auth::MAX_INSTANT_MICROS,
{
    chrono::Utc::now().timestamp_micros()
}

/// `chrono::Utc::now().to_rfc3339()`: the wall clock as RFC 3339 text. The
/// text is a date, `T`, the time of day, the fraction of the second when it
/// is not zero, and the UTC offset `+00:00`. Which instant is not stated.
#[verifier::external_body]
pub fn utc_now_rfc3339() -> (r: String)
    ensures
        crate::text::is_utc_rfc3339_text(r@),
{
    chrono::Utc::now().to_rfc3339()
}

/// `chrono::Local::now()` formatted with a `strftime` pattern. Only the two
/// patterns this crate uses are admitted: formatting with a malformed pattern
/// makes `to_string` panic. The text has the shape of the pattern; which
/// instant it shows is not stated.
#[verifier::external_body]
pub fn local_now_formatted(pattern: &str) -> (r: String)
    requires
        pattern@ == crate::text::DATE_PATTERN@ || pattern@ == crate::text::TIMESTAMP_PATTERN@,
    ensures
        pattern@ == crate::text::DATE_PATTERN@ ==> crate::text::is_date_text(r@),
        pattern@ == crate::text::TIMESTAMP_PATTERN@ ==> crate::text::is_timestamp_text(r@),
{
    chrono::Local::now().format(pattern).to_string()
}

/// `chrono::Utc::now()` formatted with a `strftime` pattern; as above.
#[verifier::external_body]
pub fn utc_now_formatted(pattern: &str) -> (r: String)
    requires
        pattern@ == crate::text::DATE_PATTERN@ || pattern@ == crate::text::TIMESTAMP_PATTERN@,
    ensures
        pattern@ == crate::text::DATE_PATTERN@ ==> crate::text::is_date_text(r@),
        pattern@ == crate::text::TIMESTAMP_PATTERN@ ==> crate::text::is_timestamp_text(r@),
{
    chrono::Utc::now().format(pattern).to_string()
}

} // verus!
