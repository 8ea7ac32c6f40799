//! Laws on expiry times.

use vstd::prelude::*;
use crate::expiry;
use crate::expiry::Expiry;
use crate::strings;

verus! {

/// The text that is kept as an expiry is a UTC timestamp of this many seconds
/// since the Unix epoch.
pub open spec fn stands_for_second(r: Option<String>, secs: nat) -> bool {
    &&& r is Some
    &&& expiry::rfc3339_instant(r->0@) == Some((secs as i64, 0u32))
    &&& ends_in_utc(r->0@)
}

/// The text ends with the offset of UTC.
pub open spec fn ends_in_utc(text: Seq<char>) -> bool {
    text.len() > 6 && text.skip(text.len() - 6) == "+00:00"@
}

/// Ten digits count the seconds since the Unix epoch: the expiry that is kept
/// stands for exactly that many. Thirteen digits count milliseconds: it stands
/// for the whole seconds among them.
pub proof fn law_epoch_number_keeps_its_second(raw: &str, r: Option<String>)
    requires
        call_ensures(expiry::normalize_expires_at, (raw,), r),
        strings::all_digits(strings::trimmed(raw@)),
    ensures
        strings::trimmed(raw@).len() == 10 ==> stands_for_second(
            r,
            strings::decimal_value(strings::trimmed(raw@)),
        ),
        strings::trimmed(raw@).len() == 13 ==> stands_for_second(
            r,
            strings::decimal_value(strings::trimmed(raw@)) / 1000,
        ),
{
    let digits = strings::trimmed(raw@);
    if digits.len() == 10 || digits.len() == 13 {
        expiry::lemma_decimal_value_bound(digits);
        reveal_strlit("+00:00");
        assert("+00:00"@ =~= seq!['+', '0', '0', ':', '0', '0']);
    }
}

/// Digits other than thirteen count seconds. Up to the year 9999 the expiry that
/// is kept stands for exactly that many; up to the end of the calendar there is
/// one; beyond it there is none, unless the number exceeds every machine number,
/// and then the digits are kept as they are.
pub proof fn law_any_number_of_seconds(raw: &str, r: Option<String>)
    requires
        call_ensures(expiry::normalize_expires_at, (raw,), r),
        strings::all_digits(strings::trimmed(raw@)),
        strings::trimmed(raw@).len() > 0,
        strings::trimmed(raw@).len() != 13,
    ensures
        ({
            let value = strings::decimal_value(strings::trimmed(raw@));
            &&& value <= 253_402_300_799 ==> stands_for_second(r, value)
            &&& 253_402_300_799 < value <= 8_210_266_876_799 ==> r is Some && ends_in_utc(r->0@)
                && r->0@ == expiry::rfc3339_text(value as i64, 0u32)
            &&& 8_210_266_876_799 < value <= 9_223_372_036_854_775_807 ==> r is None
            &&& value > 9_223_372_036_854_775_807 ==> r is Some && r->0@ == strings::trimmed(raw@)
        }),
{
    reveal_strlit("+00:00");
    assert("+00:00"@ =~= seq!['+', '0', '0', ':', '0', '0']);
}

/// Different numbers of ten digits give different expiries.
pub proof fn law_different_seconds_expire_differently(
    raw: &str,
    other: &str,
    r: Option<String>,
    r_other: Option<String>,
)
    requires
        call_ensures(expiry::normalize_expires_at, (raw,), r),
        call_ensures(expiry::normalize_expires_at, (other,), r_other),
        strings::all_digits(strings::trimmed(raw@)),
        strings::all_digits(strings::trimmed(other@)),
        strings::trimmed(raw@).len() == 10,
        strings::trimmed(other@).len() == 10,
        strings::trimmed(raw@) != strings::trimmed(other@),
    ensures
        r is Some,
        r_other is Some,
        r->0@ != r_other->0@,
{
    law_epoch_number_keeps_its_second(raw, r);
    law_epoch_number_keeps_its_second(other, r_other);
    expiry::lemma_decimal_value_bound(strings::trimmed(raw@));
    expiry::lemma_decimal_value_bound(strings::trimmed(other@));
    if strings::decimal_value(strings::trimmed(raw@)) == strings::decimal_value(
        strings::trimmed(other@),
    ) {
        lemma_equal_values_have_equal_digits(strings::trimmed(raw@), strings::trimmed(other@));
    }
}

/// As many digits that are worth as much are the same digits.
proof fn lemma_equal_values_have_equal_digits(left: Seq<char>, right: Seq<char>)
    requires
        strings::all_digits(left),
        strings::all_digits(right),
        left.len() == right.len(),
        strings::decimal_value(left) == strings::decimal_value(right),
    ensures
        left == right,
    decreases left.len(),
{
    if left.len() > 0 {
        assert(strings::is_digit(left.last()) && strings::is_digit(right.last()));
        assert forall|i: int| 0 <= i < left.drop_last().len() implies strings::is_digit(
            #[trigger] left.drop_last()[i],
        ) by {
            assert(strings::is_digit(left[i]));
        }
        assert forall|i: int| 0 <= i < right.drop_last().len() implies strings::is_digit(
            #[trigger] right.drop_last()[i],
        ) by {
            assert(strings::is_digit(right[i]));
        }
        lemma_equal_values_have_equal_digits(left.drop_last(), right.drop_last());
        assert(left =~= left.drop_last().push(left.last()));
        assert(right =~= right.drop_last().push(right.last()));
    } else {
        assert(left =~= right);
    }
}

/// A timestamp of the years 0 to 9999 keeps its instant and is told in UTC.
pub proof fn law_timestamp_keeps_its_instant(raw: &str, r: Option<String>, secs: i64, nanos: u32)
    requires
        call_ensures(expiry::normalize_expires_at, (raw,), r),
        !strings::all_digits(strings::trimmed(raw@)),
        expiry::rfc3339_instant(strings::trimmed(raw@)) == Some((secs, nanos)),
        -62_167_219_200 <= secs <= 253_402_300_799,
        nanos < 1_000_000_000 || (nanos < 2_000_000_000 && secs as int % 60 == 59),
    ensures
        r is Some,
        expiry::rfc3339_instant(r->0@) == Some((secs, nanos)),
        ends_in_utc(r->0@),
{
    reveal_strlit("+00:00");
    assert("+00:00"@ =~= seq!['+', '0', '0', ':', '0', '0']);
}

/// A timestamp becomes the UTC timestamp of the instant that it stands for.
pub proof fn law_timestamp_is_told_in_utc(raw: &str, r: Option<String>, secs: i64, nanos: u32)
    requires
        call_ensures(expiry::normalize_expires_at, (raw,), r),
        !strings::all_digits(strings::trimmed(raw@)),
        expiry::rfc3339_instant(strings::trimmed(raw@)) == Some((secs, nanos)),
    ensures
        r is Some,
        r->0@ == expiry::rfc3339_text(secs, nanos),
        ends_in_utc(r->0@),
{
    reveal_strlit("+00:00");
    assert("+00:00"@ =~= seq!['+', '0', '0', ':', '0', '0']);
}

/// An expiry that is kept stays as it is when it is normalized again.
pub proof fn law_kept_expiry_is_normalized(
    raw: &str,
    r: Option<String>,
    kept: &str,
    again: Option<String>,
)
    requires
        call_ensures(expiry::normalize_expires_at, (raw,), r),
        r is Some,
        kept@ == r->0@,
        call_ensures(expiry::normalize_expires_at, (kept,), again),
    ensures
        again is Some,
        again->0@ == kept@,
{
}

/// A field that is neither a number nor a timestamp is kept as it is, without
/// the whitespace around it; one of nothing but whitespace is no expiry.
pub proof fn law_other_text_is_kept(raw: &str, r: Option<String>)
    requires
        call_ensures(expiry::normalize_expires_at, (raw,), r),
    ensures
        strings::is_all_whitespace(raw@) ==> r is None,
        !strings::is_all_whitespace(raw@) && !strings::all_digits(strings::trimmed(raw@))
            && expiry::rfc3339_instant(strings::trimmed(raw@)) is None ==> r is Some && r->0@
            == strings::trimmed(raw@),
{
    strings::law_blank_means_only_whitespace(raw@);
}

/// Fields that differ in the whitespace around them alone have the same expiry.
pub proof fn law_outer_whitespace_does_not_matter(
    raw: &str,
    other: &str,
    r: Option<String>,
    r_other: Option<String>,
)
    requires
        call_ensures(expiry::normalize_expires_at, (raw,), r),
        call_ensures(expiry::normalize_expires_at, (other,), r_other),
        strings::trimmed(raw@) == strings::trimmed(other@),
    ensures
        r is Some <==> r_other is Some,
        r is Some ==> r->0@ == r_other->0@,
{
}

/// A field is told apart by its text without the whitespace around it: nothing,
/// a number that fits a machine number, a larger one, or anything else.
pub proof fn law_field_is_told_apart(raw: &str, r: Expiry)
    requires
        call_ensures(expiry::classify_expiry, (raw,), r),
    ensures
        ({
            let text = strings::trimmed(raw@);
            let value = strings::decimal_value(text);
            let is_number = text.len() > 0 && strings::all_digits(text);
            &&& r is Absent <==> strings::is_all_whitespace(raw@)
            &&& r is Seconds <==> is_number && value <= 9_223_372_036_854_775_807
            &&& r is TooLarge <==> is_number && value > 9_223_372_036_854_775_807
            &&& r matches Expiry::Seconds(secs) ==> secs == (if text.len() == 13 {
                value as int / 1000
            } else {
                value as int
            })
            &&& r matches Expiry::TooLarge(kept) ==> kept@ == text
            &&& r matches Expiry::Text(kept) ==> kept@ == text
        }),
{
    strings::law_blank_means_only_whitespace(raw@);
}

/// A timestamp that was found is kept for a number and for a text; without one
/// a number is no expiry and a text stands for itself. A number too large
/// stands for itself, whatever was found, and nothing stays nothing.
pub proof fn law_found_timestamp_is_kept(
    expiry: Expiry,
    stamp: Option<String>,
    r: Option<String>,
)
    requires
        call_ensures(expiry::resolve_expiry, (expiry, stamp), r),
    ensures
        expiry is Absent ==> r is None,
        expiry is Seconds ==> (r is Some <==> stamp is Some),
        (expiry is Seconds || expiry is Text) && stamp is Some ==> r is Some && r->0@ == stamp->0@,
        expiry matches Expiry::TooLarge(text) ==> r is Some && r->0@ == text@,
        expiry matches Expiry::Text(text) ==> (stamp is None ==> r is Some && r->0@ == text@),
{
}

} // verus!
