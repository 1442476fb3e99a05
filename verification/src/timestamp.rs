//! Epoch milliseconds and their human-readable forms.
//!
//! A timestamp always keeps its raw value. The readable form is an extra that
//! may be missing: an epoch value outside what a calendar format can express
//! is still delivered, without text.

use vstd::prelude::*;

verus! {

/// Milliseconds since the epoch of 0000-01-01T00:00:00Z, the first instant
/// that RFC 2822 can express.
pub const RFC2822_FIRST_MS: i64 = -62_167_219_200_000;

/// Milliseconds since the epoch of 9999-12-31T23:59:59.999Z, the last
/// instant that RFC 2822 can express.
pub const RFC2822_LAST_MS: i64 = 253_402_300_799_999;

/// Whether RFC 2822 can express the instant `millis`: its year has at most
/// four digits and is not negative.
pub open spec fn rfc2822_expressible(millis: i64) -> bool {
    RFC2822_FIRST_MS <= millis <= RFC2822_LAST_MS
}

/// The whole seconds of `millis` since the epoch, rounded towards the past.
pub open spec fn whole_seconds(millis: i64) -> int {
    millis as int / 1000
}

/// The nanoseconds by which `millis` lies past its whole second.
pub open spec fn subsec_nanos(millis: i64) -> int {
    (millis as int % 1000) * 1_000_000
}

/// The RFC 2822 text of the UTC instant `millis` milliseconds after the
/// epoch, such as `Tue, 1 Jul 2003 10:52:37 +0000`, where the calendar of the
/// formatting library holds that instant.
pub uninterp spec fn rfc2822_of_millis(millis: i64) -> Option<Seq<char>>;

/// The text `date time UTC` of the UTC instant `secs` seconds and `nanos`
/// nanoseconds after the epoch, such as `2015-05-15 00:00:00 UTC`, where the
/// calendar of the formatting library holds that instant.
pub uninterp spec fn utc_text_of(secs: i64, nanos: u32) -> Option<Seq<char>>;

/// Calls `chrono::DateTime::<Utc>::from_timestamp_millis` and, on the instant
/// it gives, `chrono::DateTime::to_rfc2822`.
///
/// The contract gives the text a name and claims nothing else of it. The
/// formatter panics on a year below 0 or above 9999, so the bounds keep
/// `millis` within those years.
#[verifier::external_body]
fn rfc2822_text(millis: i64) -> (text: Option<String>)
    requires
        rfc2822_expressible(millis),
    ensures
        text.deep_view() == rfc2822_of_millis(millis),
{
    match chrono::DateTime::<chrono::Utc>::from_timestamp_millis(millis) {
        Some(instant) => Some(instant.to_rfc2822()),
        None => None,
    }
}

/// Calls `chrono::DateTime::<Utc>::from_timestamp` and, on the instant it
/// gives, the `Display` form of `chrono::DateTime<Utc>`.
///
/// The contract gives the text a name and claims nothing else of it.
#[verifier::external_body]
fn utc_text(secs: i64, nanos: u32) -> (text: Option<String>)
    ensures
        text.deep_view() == utc_text_of(secs, nanos),
{
    match chrono::DateTime::<chrono::Utc>::from_timestamp(secs, nanos) {
        Some(instant) => Some(instant.to_string()),
        None => None,
    }
}

/// An epoch value together with its readable form, where it has one.
#[derive(Clone, Debug, PartialEq, Eq)]
pub struct TimestampText {
    /// The epoch milliseconds as stored.
    pub raw: i64,
    /// The readable form, absent where the value has none.
    pub readable: Option<String>,
}

impl TimestampText {
    /// Pairs the raw value `raw` with the readable form it was given.
    pub fn new(raw: i64, readable: Option<String>) -> (stamp: TimestampText)
        ensures
            stamp.raw == raw,
            stamp.readable == readable,
    {
        TimestampText { raw, readable }
    }

    /// Whether the value could not be given a readable form.
    pub fn is_undecoded(&self) -> (undecoded: bool)
        ensures
            undecoded == self.readable is None,
    {
        self.readable.is_none()
    }
}

/// Splits epoch milliseconds into whole seconds and the nanoseconds past
/// them. Instants before the epoch round towards the past, so the nanoseconds
/// are never negative.
pub fn split_millis(millis: i64) -> (parts: (i64, u32))
    ensures
        parts.0 == whole_seconds(millis),
        parts.1 == subsec_nanos(millis),
        parts.0 * 1000 + parts.1 / 1_000_000 == millis,
        parts.1 < 1_000_000_000,
        parts.1 % 1_000_000 == 0,
{
    if millis >= 0 {
        let secs: i64 = millis / 1000;
        let part: i64 = millis % 1000;
        (secs, (part as u32) * 1_000_000)
    } else {
        let behind: i64 = -(millis + 1);
        let secs: i64 = -(behind / 1000) - 1;
        let part: i64 = 999 - behind % 1000;
        (secs, (part as u32) * 1_000_000)
    }
}

/// The RFC 2822 form of `millis`, where that format can express the instant.
pub open spec fn rfc2822_form(millis: i64) -> Option<Seq<char>> {
    if rfc2822_expressible(millis) {
        rfc2822_of_millis(millis)
    } else {
        None
    }
}

/// The `date time UTC` form of `millis`.
pub open spec fn utc_form(millis: i64) -> Option<Seq<char>> {
    utc_text_of(whole_seconds(millis) as i64, subsec_nanos(millis) as u32)
}

/// Describes `millis` for a report, with its RFC 2822 form. A value the
/// format cannot express comes back with its raw value alone.
pub fn describe_rfc2822(millis: i64) -> (stamp: TimestampText)
    ensures
        stamp.raw == millis,
        stamp.readable.deep_view() == rfc2822_form(millis),
{
    let readable = if RFC2822_FIRST_MS <= millis && millis <= RFC2822_LAST_MS {
        rfc2822_text(millis)
    } else {
        None
    };
    TimestampText::new(millis, readable)
}

/// Describes `millis` for a progress line, with its `date time UTC` form.
pub fn describe_utc(millis: i64) -> (stamp: TimestampText)
    ensures
        stamp.raw == millis,
        stamp.readable.deep_view() == utc_form(millis),
{
    let (secs, nanos) = split_millis(millis);
    TimestampText::new(millis, utc_text(secs, nanos))
}

} // verus!
