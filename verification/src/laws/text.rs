//! Laws on strings and numbers.

use vstd::prelude::*;
use crate::strings;

verus! {

/// Trimming the end of a line cuts carriage returns and line feeds off the end,
/// all of them, and nothing else.
pub proof fn law_trim_line_end(s: &str, r: &str)
    requires
        call_ensures(strings::trim_line_end, (s,), r),
    ensures
        r@.len() <= s@.len(),
        r@ == s@.take(r@.len() as int),
        forall|i: int| r@.len() <= i < s@.len() ==> #[trigger] s@[i] == '\r' || s@[i] == '\n',
        r@.len() > 0 ==> r@.last() != '\r' && r@.last() != '\n',
{
    strings::law_only_the_line_end_is_cut(s@);
    let cut = s@.skip(r@.len() as int);
    assert forall|i: int| r@.len() <= i < s@.len() implies #[trigger] s@[i] == '\r' || s@[i]
        == '\n' by {
        assert(cut[i - r@.len()] == s@[i]);
    }
}

/// A string without the separator is one field.
pub proof fn law_string_without_separator_is_one_field(s: &str, separator: char, r: Vec<String>)
    requires
        call_ensures(strings::split_fields, (s, separator), r),
        !s@.contains(separator),
    ensures
        r@.len() == 1,
        r@[0]@ == s@,
{
    strings::law_first_separator_ends_the_first_field(s@, separator, Seq::<char>::empty());
    assert(strings::texts(r@)[0] == r@[0]@);
}

/// What stands before the first separator is the first field, and what stands
/// behind it has the other fields.
pub proof fn law_first_field_is_split_off(
    s: &str,
    first: Seq<char>,
    rest: &str,
    separator: char,
    r: Vec<String>,
    rest_fields: Vec<String>,
)
    requires
        !first.contains(separator),
        s@ == first.push(separator) + rest@,
        call_ensures(strings::split_fields, (s, separator), r),
        call_ensures(strings::split_fields, (rest, separator), rest_fields),
    ensures
        r@.len() == rest_fields@.len() + 1,
        r@[0]@ == first,
        forall|i: int| 0 <= i < rest_fields@.len() ==> r@[i + 1]@ == #[trigger] rest_fields@[i]@,
{
    strings::law_first_separator_ends_the_first_field(first, separator, rest@);
    let all = strings::texts(r@);
    let others = strings::texts(rest_fields@);
    assert(all.len() == others.len() + 1);
    assert(all[0] == r@[0]@);
    assert forall|i: int| 0 <= i < rest_fields@.len() implies r@[i + 1]@
        == #[trigger] rest_fields@[i]@ by {
        assert(all[i + 1] == r@[i + 1]@);
        assert(others[i] == rest_fields@[i]@);
        assert((seq![first] + others)[i + 1] == others[i]);
    }
}

/// A string is all digits exactly when each character lies between `0` and `9`.
pub proof fn law_all_digits(s: &str, r: bool)
    requires
        call_ensures(strings::is_all_digits, (s,), r),
    ensures
        r == (forall|i: int| 0 <= i < s@.len() ==> '0' <= #[trigger] s@[i] && s@[i] <= '9'),
{
    if forall|i: int| 0 <= i < s@.len() ==> '0' <= #[trigger] s@[i] && s@[i] <= '9' {
        assert forall|i: int| 0 <= i < s@.len() implies strings::is_digit(#[trigger] s@[i]) by {}
    } else {
        let i = choose|i: int|
            0 <= i < s@.len() && !('0' <= #[trigger] s@[i] && s@[i] <= '9');
        assert(!strings::is_digit(s@[i]));
    }
}

/// Decimal notation: no digits are worth nothing, and a further digit makes ten
/// times as much and itself.
pub proof fn law_decimal_notation(digits: Seq<char>, digit: char)
    requires
        '0' <= digit <= '9',
    ensures
        strings::decimal_value(Seq::<char>::empty()) == 0,
        strings::decimal_value(digits.push(digit)) == 10 * strings::decimal_value(digits) + (
        digit as int - 48),
{
    assert(digits.push(digit).drop_last() =~= digits);
}

/// Digits are read as the number that they write, as far as it fits.
pub proof fn law_digits_are_read(s: &str, r: Option<i64>)
    requires
        strings::all_digits(s@),
        call_ensures(strings::parse_digits, (s,), r),
    ensures
        strings::decimal_value(s@) <= 9_223_372_036_854_775_807 ==> r is Some && r->0
            == strings::decimal_value(s@),
        strings::decimal_value(s@) > 9_223_372_036_854_775_807 ==> r is None,
{
}

/// A number is written in digits that read back as it, without leading zeros.
pub proof fn law_decimal_text(n: u16, r: String)
    requires
        call_ensures(strings::decimal_text, (n,), r),
    ensures
        is_decimal_notation(r@, n as nat),
{
    strings::law_decimal_digits_read_back(n as nat);
}

/// The digits write the number, without leading zeros.
pub open spec fn is_decimal_notation(digits: Seq<char>, n: nat) -> bool {
    &&& digits.len() > 0
    &&& forall|i: int| 0 <= i < digits.len() ==> '0' <= #[trigger] digits[i] && digits[i] <= '9'
    &&& strings::decimal_value(digits) == n
    &&& digits.len() > 1 ==> digits[0] != '0'
}

/// Characters are listed as they stand in the string.
pub proof fn law_characters_are_listed(s: &str, r: Vec<char>)
    requires
        call_ensures(strings::chars_of, (s,), r),
    ensures
        r@.len() == s@.len(),
        forall|i: int| 0 <= i < s@.len() ==> r@[i] == #[trigger] s@[i],
{
}

} // verus!
