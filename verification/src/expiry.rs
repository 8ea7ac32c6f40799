//! Expiry times: an epoch number or a timestamp in, an RFC 3339 timestamp in UTC
//! out.
//!
//! An instant is a pair of plain numbers: seconds since the Unix epoch and
//! nanoseconds within that second. A leap second carries a nanosecond part of
//! one thousand million or more.

use chrono::{DateTime, Utc};
use vstd::prelude::*;
use crate::strings;

verus! {

/// The first second that a calendar date stands for: 1 January of the year -262143.
pub const FIRST_SECOND: i64 = -8_334_601_228_800;

/// The last second that a calendar date stands for: 31 December of the year 262142.
pub const LAST_SECOND: i64 = 8_210_266_876_799;

/// The first second of the year 0.
pub const FIRST_SECOND_OF_YEAR_0: i64 = -62_167_219_200;

/// The last second of the year 9999.
pub const LAST_SECOND_OF_YEAR_9999: i64 = 253_402_300_799;

/// The instants that the calendar covers.
pub open spec fn is_instant(secs: i64, nanos: u32) -> bool {
    &&& FIRST_SECOND <= secs <= LAST_SECOND
    &&& nanos < 1_000_000_000 || (nanos < 2_000_000_000 && secs as int % 60 == 59)
}

/// The instants of the years 0 to 9999, which RFC 3339 can write.
pub open spec fn is_rfc3339_instant(secs: i64, nanos: u32) -> bool {
    is_instant(secs, nanos) && FIRST_SECOND_OF_YEAR_0 <= secs <= LAST_SECOND_OF_YEAR_9999
}

/// What `DateTime::<Utc>::to_rfc3339` of chrono writes for an instant.
pub uninterp spec fn rfc3339_text(secs: i64, nanos: u32) -> Seq<char>;

/// The instant that `DateTime::parse_from_rfc3339` of chrono reads in a text,
/// in UTC; `None` where it reads none.
pub uninterp spec fn rfc3339_instant(text: Seq<char>) -> Option<(i64, u32)>;

/// `DateTime::<Utc>::from_timestamp` of chrono: succeeds on exactly the instants
/// that the calendar covers and stands for the instant it was given.
#[verifier::external_body]
fn from_timestamp(secs: i64, nanos: u32) -> (r: Option<(i64, u32)>)
    ensures
        r == (if is_instant(secs, nanos) {
            Some((secs, nanos))
        } else {
            None
        }),
{
    match DateTime::<Utc>::from_timestamp(secs, nanos) {
        Some(at) => Some((at.timestamp(), at.timestamp_subsec_nanos())),
        None => None,
    }
}

/// `DateTime::parse_from_rfc3339` of chrono, converted to UTC: a function of the
/// text alone. What it reads is an instant that the calendar covers.
#[verifier::external_body]
fn parse_from_rfc3339(text: &str) -> (r: Option<(i64, u32)>)
    ensures
        r == rfc3339_instant(text@),
        r matches Some((secs, nanos)) ==> is_instant(secs, nanos),
{
    match DateTime::parse_from_rfc3339(text) {
        Ok(at) => {
            let utc = at.with_timezone(&Utc);
            Some((utc.timestamp(), utc.timestamp_subsec_nanos()))
        },
        Err(_) => None,
    }
}

/// `DateTime::<Utc>::to_rfc3339` of chrono: a function of the instant alone. The
/// text begins with a digit or a sign and ends with the offset `+00:00`. Parsing
/// it gives the instant back in the years 0 to 9999; outside them the year is
/// written with a sign, which the parser rejects.
#[verifier::external_body]
fn to_rfc3339(secs: i64, nanos: u32) -> (r: String)
    requires
        is_instant(secs, nanos),
    ensures
        r@ == rfc3339_text(secs, nanos),
        is_utc_stamp(r@),
        rfc3339_instant(r@) == (if is_rfc3339_instant(secs, nanos) {
            Some((secs, nanos))
        } else {
            None
        }),
{
    DateTime::<Utc>::from_timestamp(secs, nanos).expect("an instant of the calendar").to_rfc3339()
}

/// The text begins with a digit or a sign and ends with the offset `+00:00`.
pub open spec fn is_utc_stamp(text: Seq<char>) -> bool {
    &&& text.len() > 6
    &&& strings::is_digit(text.first()) || text.first() == '+' || text.first() == '-'
    &&& text.skip(text.len() - 6) == seq!['+', '0', '0', ':', '0', '0']
}

/// What a raw expiry field holds.
#[derive(Debug)]
pub enum Expiry {
    /// Nothing but whitespace.
    Absent,
    /// An epoch number, as seconds.
    Seconds(i64),
    /// A number that exceeds `i64::MAX`.
    TooLarge(String),
    /// Any other text, trimmed.
    Text(String),
}

/// What a raw expiry field holds, over texts.
pub enum ExpiryView {
    Absent,
    Seconds(i64),
    TooLarge(Seq<char>),
    Text(Seq<char>),
}

impl View for Expiry {
    type V = ExpiryView;

    open spec fn view(&self) -> ExpiryView {
        match self {
            Expiry::Absent => ExpiryView::Absent,
            Expiry::Seconds(secs) => ExpiryView::Seconds(*secs),
            Expiry::TooLarge(text) => ExpiryView::TooLarge(text@),
            Expiry::Text(text) => ExpiryView::Text(text@),
        }
    }
}

/// A number of thirteen digits counts milliseconds, any other counts seconds.
pub open spec fn epoch_seconds(digits: Seq<char>) -> nat {
    if digits.len() == 13 {
        strings::decimal_value(digits) / 1000
    } else {
        strings::decimal_value(digits)
    }
}

/// What a raw expiry field holds.
pub open spec fn classified(raw: Seq<char>) -> ExpiryView {
    let text = strings::trimmed(raw);
    if text.len() == 0 {
        ExpiryView::Absent
    } else if strings::all_digits(text) {
        if strings::decimal_value(text) <= i64::MAX {
            ExpiryView::Seconds(epoch_seconds(text) as i64)
        } else {
            ExpiryView::TooLarge(text)
        }
    } else {
        ExpiryView::Text(text)
    }
}

/// Decides what a raw expiry field holds.
pub fn classify_expiry(raw: &str) -> (r: Expiry)
    ensures
        r@ == classified(raw@),
{
    let text = raw.trim();
    if text.is_empty() {
        return Expiry::Absent;
    }
    if strings::is_all_digits(text) {
        match strings::parse_digits(text) {
            Some(value) => {
                if text.unicode_len() == 13 {
                    Expiry::Seconds(value / 1000)
                } else {
                    Expiry::Seconds(value)
                }
            },
            None => Expiry::TooLarge(text.to_owned()),
        }
    } else {
        Expiry::Text(text.to_owned())
    }
}

/// The expiry to keep, given the UTC timestamp found for the field, if any.
pub open spec fn resolved(expiry: ExpiryView, stamp: Option<Seq<char>>) -> Option<Seq<char>> {
    match expiry {
        ExpiryView::Absent => None,
        ExpiryView::Seconds(_) => stamp,
        ExpiryView::TooLarge(text) => Some(text),
        ExpiryView::Text(text) => match stamp {
            Some(s) => Some(s),
            None => Some(text),
        },
    }
}

/// Chooses the expiry to keep, given the UTC timestamp found for the field: an
/// epoch number needs one, a text stands for itself where there is none.
pub fn resolve_expiry(expiry: Expiry, stamp: Option<String>) -> (r: Option<String>)
    ensures
        strings::text_of(r) == resolved(expiry@, strings::text_of(stamp)),
{
    match expiry {
        Expiry::Absent => None,
        Expiry::Seconds(_) => stamp,
        Expiry::TooLarge(text) => Some(text),
        Expiry::Text(text) => match stamp {
            Some(s) => Some(s),
            None => Some(text),
        },
    }
}

/// The instant that a field stands for.
pub open spec fn instant_of(expiry: ExpiryView) -> Option<(i64, u32)> {
    match expiry {
        ExpiryView::Seconds(secs) => if is_instant(secs, 0) {
            Some((secs, 0u32))
        } else {
            None
        },
        ExpiryView::Text(text) => rfc3339_instant(text),
        _ => None,
    }
}

/// The expiry that is kept for a raw field.
pub open spec fn normalized(raw: Seq<char>) -> Option<Seq<char>> {
    let expiry = classified(raw);
    resolved(
        expiry,
        match instant_of(expiry) {
            Some((secs, nanos)) => Some(rfc3339_text(secs, nanos)),
            None => None,
        },
    )
}

/// Turns a raw expiry field into the expiry to keep: an epoch number in seconds
/// or milliseconds and an RFC 3339 timestamp become an RFC 3339 timestamp in UTC,
/// a blank field and an epoch number outside the calendar become nothing, and
/// any other text is kept, trimmed. A timestamp that is kept stands for the same
/// instant as the field: it parses to it in the years 0 to 9999, and to nothing
/// outside them. What is kept is normalized already.
pub fn normalize_expires_at(raw: &str) -> (r: Option<String>)
    ensures
        strings::text_of(r) == normalized(raw@),
        instant_of(classified(raw@)) matches Some((secs, nanos)) ==> {
            &&& r is Some
            &&& is_utc_stamp(r->0@)
            &&& rfc3339_instant(r->0@) == (if is_rfc3339_instant(secs, nanos) {
                Some((secs, nanos))
            } else {
                None
            })
        },
        r matches Some(text) ==> normalized(text@) == Some(text@),
{
    let expiry = classify_expiry(raw);
    let instant: Option<(i64, u32)> = match &expiry {
        Expiry::Seconds(secs) => from_timestamp(*secs, 0),
        Expiry::Text(text) => parse_from_rfc3339(text.as_str()),
        _ => None,
    };
    let stamp = match instant {
        Some((secs, nanos)) => Some(to_rfc3339(secs, nanos)),
        None => None,
    };
    proof {
        strings::law_trimmed_is_idempotent(raw@);
        if stamp is Some {
            lemma_utc_stamp_is_text(stamp->0@);
        }
    }
    resolve_expiry(expiry, stamp)
}

proof fn lemma_utc_stamp_is_text(text: Seq<char>)
    requires
        is_utc_stamp(text),
    ensures
        classified(text) == ExpiryView::Text(text),
{
    let tail = text.skip(text.len() - 6);
    assert(tail[0] == text[text.len() - 6]);
    assert(tail[5] == text[text.len() - 1]);
    strings::law_trimmed_is_identity_without_outer_whitespace(text);
    assert(!strings::is_digit(text[text.len() - 6]));
}

pub(crate) proof fn lemma_decimal_value_bound(digits: Seq<char>)
    requires
        strings::all_digits(digits),
        digits.len() <= 13,
    ensures
        digits.len() <= 10 ==> strings::decimal_value(digits) < 10_000_000_000,
        digits.len() <= 13 ==> strings::decimal_value(digits) < 10_000_000_000_000,
{
    reveal_with_fuel(strings::decimal_value, 14);
    assert(forall|i: int| 0 <= i < digits.len() ==> strings::is_digit(#[trigger] digits[i]));
}

/// A ten-digit epoch number in seconds and the same number in milliseconds,
/// written with three more digits, stand for the same expiry.
pub proof fn law_milliseconds_agree_with_seconds(digits: Seq<char>, fraction: Seq<char>)
    requires
        digits.len() == 10,
        fraction.len() == 3,
        strings::all_digits(digits),
        strings::all_digits(fraction),
    ensures
        normalized(digits + fraction) == normalized(digits),
{
    let long = digits + fraction;
    assert forall|i: int| 0 <= i < long.len() implies strings::is_digit(#[trigger] long[i]) by {
        if i < 10 {
            assert(long[i] == digits[i]);
        } else {
            assert(long[i] == fraction[i - 10]);
        }
    }
    assert(strings::is_digit(digits[0]) && strings::is_digit(digits[9]));
    assert(strings::is_digit(long[0]) && strings::is_digit(long[12]));
    strings::law_trimmed_is_identity_without_outer_whitespace(digits);
    strings::law_trimmed_is_identity_without_outer_whitespace(long);
    assert(long.drop_last().drop_last().drop_last() =~= digits);
    reveal_with_fuel(strings::decimal_value, 4);
    assert(strings::is_digit(fraction[0]) && strings::is_digit(fraction[1]));
    assert(strings::is_digit(fraction[2]));
    assert(strings::decimal_value(long) / 1000 == strings::decimal_value(digits));
    lemma_decimal_value_bound(digits);
    lemma_decimal_value_bound(long);
}

/// Whitespace around a field does not change its expiry.
pub proof fn law_normalized_ignores_outer_whitespace(raw: Seq<char>)
    ensures
        normalized(strings::trimmed(raw)) == normalized(raw),
{
    strings::law_trimmed_is_idempotent(raw);
}

} // verus!
