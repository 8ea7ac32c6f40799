//! Strings: trimming, splitting and decimal numbers.

use vstd::prelude::*;

verus! {

/// The characters with the Unicode property `White_Space`.
pub open spec fn is_whitespace(c: char) -> bool {
    ||| '\u{9}' <= c <= '\u{d}'
    ||| c == '\u{20}'
    ||| c == '\u{85}'
    ||| c == '\u{a0}'
    ||| c == '\u{1680}'
    ||| '\u{2000}' <= c <= '\u{200a}'
    ||| c == '\u{2028}'
    ||| c == '\u{2029}'
    ||| c == '\u{202f}'
    ||| c == '\u{205f}'
    ||| c == '\u{3000}'
}

/// `s` without its leading whitespace.
pub open spec fn trimmed_start(s: Seq<char>) -> Seq<char>
    decreases s.len(),
{
    if s.len() > 0 && is_whitespace(s.first()) {
        trimmed_start(s.drop_first())
    } else {
        s
    }
}

/// `s` without its trailing whitespace.
pub open spec fn trimmed_end(s: Seq<char>) -> Seq<char>
    decreases s.len(),
{
    if s.len() > 0 && is_whitespace(s.last()) {
        trimmed_end(s.drop_last())
    } else {
        s
    }
}

/// `s` without leading and trailing whitespace.
pub open spec fn trimmed(s: Seq<char>) -> Seq<char> {
    trimmed_end(trimmed_start(s))
}

/// `s` holds nothing but whitespace.
pub open spec fn is_blank(s: Seq<char>) -> bool {
    trimmed(s).len() == 0
}

/// `str::trim` of std: leading and trailing characters with the property
/// `White_Space` are removed, and nothing else.
pub assume_specification[ str::trim ](s: &str) -> (r: &str)
    ensures
        r@ == trimmed(s@),
;

/// `String::push` of std: the character is appended to the end.
pub assume_specification[ String::push ](s: &mut String, c: char)
    ensures
        final(s)@ == old(s)@.push(c),
;

/// Neither the first nor the last character is whitespace.
pub open spec fn has_no_outer_whitespace(s: Seq<char>) -> bool {
    s.len() > 0 ==> !is_whitespace(s.first()) && !is_whitespace(s.last())
}

proof fn lemma_trimmed_start_shape(s: Seq<char>)
    ensures
        trimmed_start(s).len() > 0 ==> !is_whitespace(trimmed_start(s).first()),
        trimmed_start(s).len() <= s.len(),
    decreases s.len(),
{
    if s.len() > 0 && is_whitespace(s.first()) {
        lemma_trimmed_start_shape(s.drop_first());
    }
}

proof fn lemma_trimmed_end_shape(s: Seq<char>)
    ensures
        trimmed_end(s).len() > 0 ==> !is_whitespace(trimmed_end(s).last()),
        trimmed_end(s).len() <= s.len(),
        trimmed_end(s) == s.take(trimmed_end(s).len() as int),
    decreases s.len(),
{
    if s.len() > 0 && is_whitespace(s.last()) {
        lemma_trimmed_end_shape(s.drop_last());
        let n = trimmed_end(s).len() as int;
        assert(s.drop_last().take(n) =~= s.take(n));
    } else {
        assert(s.take(s.len() as int) =~= s);
    }
}

/// A trimmed string neither begins nor ends with whitespace.
pub proof fn law_trimmed_has_no_outer_whitespace(s: Seq<char>)
    ensures
        has_no_outer_whitespace(trimmed(s)),
{
    lemma_trimmed_start_shape(s);
    lemma_trimmed_end_shape(trimmed_start(s));
}

/// Trimming leaves a string without outer whitespace as it is.
pub proof fn law_trimmed_is_identity_without_outer_whitespace(s: Seq<char>)
    requires
        has_no_outer_whitespace(s),
    ensures
        trimmed(s) == s,
{
}

/// Trimming twice is trimming once.
pub proof fn law_trimmed_is_idempotent(s: Seq<char>)
    ensures
        trimmed(trimmed(s)) == trimmed(s),
{
    law_trimmed_has_no_outer_whitespace(s);
    law_trimmed_is_identity_without_outer_whitespace(trimmed(s));
}

/// Every character is whitespace.
pub open spec fn is_all_whitespace(s: Seq<char>) -> bool {
    forall|i: int| 0 <= i < s.len() ==> is_whitespace(#[trigger] s[i])
}

proof fn lemma_trimmed_start_splits(s: Seq<char>)
    ensures
        exists|before: Seq<char>| #[trigger]
            is_all_whitespace(before) && s == before + trimmed_start(s),
    decreases s.len(),
{
    if s.len() > 0 && is_whitespace(s.first()) {
        lemma_trimmed_start_splits(s.drop_first());
        let rest = choose|rest: Seq<char>| #[trigger]
            is_all_whitespace(rest) && s.drop_first() == rest + trimmed_start(s.drop_first());
        let before = seq![s.first()] + rest;
        assert(is_all_whitespace(before)) by {
            assert forall|i: int| 0 <= i < before.len() implies is_whitespace(
                #[trigger] before[i],
            ) by {
                if i > 0 {
                    assert(before[i] == rest[i - 1]);
                }
            }
        }
        let kept = trimmed_start(s.drop_first());
        assert(s =~= seq![s.first()] + s.drop_first());
        assert(seq![s.first()] + (rest + kept) =~= before + kept);
    } else {
        assert(is_all_whitespace(Seq::<char>::empty()));
        assert(s =~= Seq::<char>::empty() + s);
    }
}

proof fn lemma_trimmed_end_splits(s: Seq<char>)
    ensures
        exists|after: Seq<char>| #[trigger]
            is_all_whitespace(after) && s == trimmed_end(s) + after,
    decreases s.len(),
{
    if s.len() > 0 && is_whitespace(s.last()) {
        lemma_trimmed_end_splits(s.drop_last());
        let rest = choose|rest: Seq<char>| #[trigger]
            is_all_whitespace(rest) && s.drop_last() == trimmed_end(s.drop_last()) + rest;
        let after = rest.push(s.last());
        assert(is_all_whitespace(after)) by {
            assert forall|i: int| 0 <= i < after.len() implies is_whitespace(
                #[trigger] after[i],
            ) by {
                if i < rest.len() {
                    assert(after[i] == rest[i]);
                }
            }
        }
        let kept = trimmed_end(s.drop_last());
        assert(s =~= s.drop_last().push(s.last()));
        assert((kept + rest).push(s.last()) =~= kept + after);
    } else {
        assert(is_all_whitespace(Seq::<char>::empty()));
        assert(s =~= s + Seq::<char>::empty());
    }
}

/// Trimming removes whitespace at the two ends and nothing else.
pub proof fn law_trimming_removes_only_whitespace(s: Seq<char>)
    ensures
        exists|before: Seq<char>, after: Seq<char>| #[trigger]
            is_all_whitespace(before) && #[trigger] is_all_whitespace(after) && s == before
                + trimmed(s) + after,
{
    lemma_trimmed_start_splits(s);
    lemma_trimmed_end_splits(trimmed_start(s));
    let before = choose|before: Seq<char>| #[trigger]
        is_all_whitespace(before) && s == before + trimmed_start(s);
    let after = choose|after: Seq<char>| #[trigger]
        is_all_whitespace(after) && trimmed_start(s) == trimmed(s) + after;
    assert(s =~= before + trimmed(s) + after);
}

/// A string is blank exactly when all its characters are whitespace.
pub proof fn law_blank_means_only_whitespace(s: Seq<char>)
    ensures
        is_blank(s) == is_all_whitespace(s),
{
    law_trimming_removes_only_whitespace(s);
    let (before, after) = choose|before: Seq<char>, after: Seq<char>| #[trigger]
        is_all_whitespace(before) && #[trigger] is_all_whitespace(after) && s == before + trimmed(s)
            + after;
    if is_blank(s) {
        assert forall|i: int| 0 <= i < s.len() implies is_whitespace(#[trigger] s[i]) by {
            if i < before.len() {
                assert(s[i] == before[i]);
            } else {
                assert(s[i] == after[i - before.len()]);
            }
        }
    } else {
        law_trimmed_has_no_outer_whitespace(s);
        assert(s[before.len() as int] == trimmed(s).first());
    }
}

/// `s` without the carriage returns and line feeds at its end.
pub open spec fn without_line_end(s: Seq<char>) -> Seq<char>
    decreases s.len(),
{
    if s.len() > 0 && (s.last() == '\r' || s.last() == '\n') {
        without_line_end(s.drop_last())
    } else {
        s
    }
}

/// Every character is a carriage return or a line feed.
pub open spec fn is_line_end(s: Seq<char>) -> bool {
    forall|i: int| 0 <= i < s.len() ==> #[trigger] s[i] == '\r' || s[i] == '\n'
}

/// Carriage returns and line feeds after a string do not change what is left
/// without its line end.
pub proof fn law_line_end_does_not_matter(s: Seq<char>, line_end: Seq<char>)
    requires
        is_line_end(line_end),
    ensures
        without_line_end(s + line_end) == without_line_end(s),
    decreases line_end.len(),
{
    if line_end.len() == 0 {
        assert(s + line_end =~= s);
    } else {
        assert((s + line_end).drop_last() =~= s + line_end.drop_last());
        assert((s + line_end).last() == line_end[line_end.len() - 1]);
        law_line_end_does_not_matter(s, line_end.drop_last());
    }
}

/// The line end of a string lies behind its last other character.
pub proof fn law_line_end_lies_behind(s: Seq<char>, more: Seq<char>)
    requires
        s.len() > 0,
        s.last() != '\r' && s.last() != '\n',
    ensures
        without_line_end(s + more) == s + without_line_end(more),
    decreases more.len(),
{
    if more.len() == 0 {
        assert(s + more =~= s);
    } else {
        assert((s + more).drop_last() =~= s + more.drop_last());
        assert((s + more).last() == more.last());
        law_line_end_lies_behind(s, more.drop_last());
    }
}

/// What is left without the line end is the string up to some carriage returns
/// and line feeds, and does not end with one.
pub proof fn law_only_the_line_end_is_cut(s: Seq<char>)
    ensures
        without_line_end(s).len() <= s.len(),
        s.take(without_line_end(s).len() as int) == without_line_end(s),
        is_line_end(s.skip(without_line_end(s).len() as int)),
        without_line_end(s).len() > 0 ==> without_line_end(s).last() != '\r' && without_line_end(
            s,
        ).last() != '\n',
    decreases s.len(),
{
    let kept = without_line_end(s);
    if s.len() > 0 && (s.last() == '\r' || s.last() == '\n') {
        law_only_the_line_end_is_cut(s.drop_last());
        assert(s.take(kept.len() as int) =~= s.drop_last().take(kept.len() as int));
        let cut = s.skip(kept.len() as int);
        let shorter = s.drop_last().skip(kept.len() as int);
        assert forall|i: int| 0 <= i < cut.len() implies #[trigger] cut[i] == '\r' || cut[i]
            == '\n' by {
            if i < shorter.len() {
                assert(cut[i] == shorter[i]);
            }
        }
    } else {
        assert(s.take(kept.len() as int) =~= s);
    }
}

/// The characters of a string, in order.
pub fn chars_of(s: &str) -> (r: Vec<char>)
    ensures
        r@ == s@,
{
    let mut r: Vec<char> = Vec::new();
    for c in it: s.chars()
        invariant
            r@ == it.seq().take(it.index()),
            it.seq() == s@,
    {
        r.push(c);
    }
    r
}

/// Removes the carriage returns and line feeds at the end.
pub fn trim_line_end(s: &str) -> (r: &str)
    ensures
        r@ == without_line_end(s@),
{
    let chars = chars_of(s);
    let mut end: usize = chars.len();
    proof {
        assert(s@.take(end as int) =~= s@);
    }
    while end > 0 && (chars[end - 1] == '\r' || chars[end - 1] == '\n')
        invariant
            end <= chars@.len(),
            chars@ == s@,
            without_line_end(s@.take(end as int)) == without_line_end(s@),
        decreases end,
    {
        proof {
            assert(s@.take(end as int).drop_last() =~= s@.take(end - 1));
        }
        end = end - 1;
    }
    s.substring_char(0, end)
}

/// The fields of `s` between occurrences of `separator`. Read from left to
/// right, a separator opens a new field and any other character extends the
/// last one; a string without a separator is one field.
pub open spec fn fields_of(s: Seq<char>, separator: char) -> Seq<Seq<char>>
    decreases s.len(),
{
    if s.len() == 0 {
        seq![Seq::<char>::empty()]
    } else {
        let before = fields_of(s.drop_last(), separator);
        if s.last() == separator {
            before.push(Seq::<char>::empty())
        } else {
            before.drop_last().push(before.last().push(s.last()))
        }
    }
}

/// The field at a position, or the empty string past the last one.
pub open spec fn field_at(fields: Seq<Seq<char>>, position: int) -> Seq<char> {
    if 0 <= position < fields.len() {
        fields[position]
    } else {
        Seq::<char>::empty()
    }
}

/// The text of an optional string.
pub open spec fn text_of(value: Option<String>) -> Option<Seq<char>> {
    match value {
        Some(text) => Some(text@),
        None => None,
    }
}

/// The texts of a list of strings.
pub open spec fn texts(list: Seq<String>) -> Seq<Seq<char>> {
    Seq::new(list.len(), |i: int| list[i]@)
}

/// Splits a string at every occurrence of `separator`.
pub fn split_fields(s: &str, separator: char) -> (r: Vec<String>)
    ensures
        texts(r@) == fields_of(s@, separator),
{
    let mut closed: Vec<String> = Vec::new();
    let mut open = String::new();
    proof {
        assert(texts(closed@).push(open@) =~= fields_of(s@.take(0), separator));
    }
    for c in it: s.chars()
        invariant
            it.seq() == s@,
            texts(closed@).push(open@) == fields_of(s@.take(it.index()), separator),
    {
        let ghost n: int = it.index();
        let ghost before = texts(closed@).push(open@);
        proof {
            assert(s@.take(n + 1).drop_last() =~= s@.take(n));
            assert(before.drop_last() =~= texts(closed@));
        }
        if c == separator {
            closed.push(open);
            open = String::new();
            proof {
                assert(texts(closed@) =~= before);
            }
        } else {
            open.push(c);
        }
    }
    proof {
        assert(s@.take(s@.len() as int) =~= s@);
        assert(texts(closed@.push(open)) =~= texts(closed@).push(open@));
    }
    closed.push(open);
    closed
}

/// The fields put together again, with `separator` between each two.
pub open spec fn joined_fields(fields: Seq<Seq<char>>, separator: char) -> Seq<char>
    decreases fields.len(),
{
    if fields.len() == 0 {
        Seq::<char>::empty()
    } else if fields.len() == 1 {
        fields[0]
    } else {
        joined_fields(fields.drop_last(), separator).push(separator) + fields.last()
    }
}

/// Splitting loses nothing: the fields joined again are the string, there is
/// at least one field, and no field holds the separator.
pub proof fn law_fields_join_to_the_string(s: Seq<char>, separator: char)
    ensures
        fields_of(s, separator).len() >= 1,
        joined_fields(fields_of(s, separator), separator) == s,
        forall|i: int|
            0 <= i < fields_of(s, separator).len() ==> !(#[trigger] fields_of(
                s,
                separator,
            )[i]).contains(separator),
    decreases s.len(),
{
    let fields = fields_of(s, separator);
    if s.len() == 0 {
        assert(s =~= Seq::<char>::empty());
    } else {
        let before = fields_of(s.drop_last(), separator);
        law_fields_join_to_the_string(s.drop_last(), separator);
        if s.last() == separator {
            assert(fields.drop_last() =~= before);
            assert(joined_fields(fields, separator) =~= s);
        } else {
            assert(fields.drop_last() =~= before.drop_last());
            assert(joined_fields(fields, separator) =~= joined_fields(before, separator).push(
                s.last(),
            ));
            assert(s.drop_last().push(s.last()) =~= s);
            let last = fields.last();
            assert(!before.last().contains(separator));
            assert forall|k: int| 0 <= k < last.len() implies last[k] != separator by {
                if k < before.last().len() {
                    assert(last[k] == before.last()[k]);
                }
            }
        }
    }
}

proof fn lemma_fields_of_longer_field(s: Seq<char>, more: Seq<char>, separator: char)
    requires
        !more.contains(separator),
    ensures
        fields_of(s + more, separator) == fields_of(s, separator).drop_last().push(
            fields_of(s, separator).last() + more,
        ),
    decreases more.len(),
{
    law_fields_join_to_the_string(s, separator);
    let fields = fields_of(s, separator);
    if more.len() == 0 {
        assert(s + more =~= s);
        assert(fields.last() + more =~= fields.last());
        assert(fields.drop_last().push(fields.last()) =~= fields);
    } else {
        let rest = more.drop_last();
        assert forall|i: int| 0 <= i < rest.len() implies rest[i] != separator by {
            assert(rest[i] == more[i]);
        }
        lemma_fields_of_longer_field(s, rest, separator);
        assert((s + more).drop_last() =~= s + rest);
        assert(more.last() != separator) by {
            assert(more.contains(more[more.len() - 1]));
        }
        let before = fields_of(s + rest, separator);
        assert(before.drop_last() =~= fields.drop_last());
        assert((fields.last() + rest).push(more.last()) =~= fields.last() + more);
    }
}

/// Joining loses nothing: fields without the separator, joined and split again,
/// are the same fields.
pub proof fn law_joined_fields_split_to_the_fields(fields: Seq<Seq<char>>, separator: char)
    requires
        fields.len() >= 1,
        forall|i: int| 0 <= i < fields.len() ==> !(#[trigger] fields[i]).contains(separator),
    ensures
        fields_of(joined_fields(fields, separator), separator) == fields,
    decreases fields.len(),
{
    if fields.len() == 1 {
        let empty = Seq::<char>::empty();
        lemma_fields_of_longer_field(empty, fields[0], separator);
        assert(empty + fields[0] =~= fields[0]);
        assert(fields_of(fields[0], separator) =~= fields);
    } else {
        let rest = fields.drop_last();
        law_joined_fields_split_to_the_fields(rest, separator);
        let line = joined_fields(rest, separator).push(separator);
        assert(line.drop_last() =~= joined_fields(rest, separator));
        assert(fields_of(line, separator) =~= rest.push(Seq::<char>::empty()));
        lemma_fields_of_longer_field(line, fields.last(), separator);
        assert(Seq::<char>::empty() + fields.last() =~= fields.last());
        assert(fields_of(line + fields.last(), separator) =~= fields);
    }
}

/// The first separator ends the first field, and the rest of the string has the
/// other fields.
pub proof fn law_first_separator_ends_the_first_field(
    first: Seq<char>,
    separator: char,
    rest: Seq<char>,
)
    requires
        !first.contains(separator),
    ensures
        fields_of(first, separator) == seq![first],
        fields_of(first.push(separator) + rest, separator) == seq![first] + fields_of(
            rest,
            separator,
        ),
    decreases rest.len(),
{
    let empty = Seq::<char>::empty();
    lemma_fields_of_longer_field(empty, first, separator);
    assert(empty + first =~= first);
    assert(fields_of(first, separator) =~= seq![first]);
    let whole = first.push(separator) + rest;
    if rest.len() == 0 {
        assert(whole =~= first.push(separator));
        assert(whole.drop_last() =~= first);
        assert(fields_of(whole, separator) =~= seq![first] + fields_of(rest, separator));
    } else {
        law_first_separator_ends_the_first_field(first, separator, rest.drop_last());
        law_fields_join_to_the_string(rest.drop_last(), separator);
        assert(whole.drop_last() =~= first.push(separator) + rest.drop_last());
        let before = fields_of(rest.drop_last(), separator);
        assert((seq![first] + before).last() == before.last());
        assert((seq![first] + before).drop_last() =~= seq![first] + before.drop_last());
        assert(fields_of(whole, separator) =~= seq![first] + fields_of(rest, separator));
    }
}

/// An ASCII decimal digit.
pub open spec fn is_digit(c: char) -> bool {
    '0' <= c <= '9'
}

/// Every character is an ASCII decimal digit.
pub open spec fn all_digits(s: Seq<char>) -> bool {
    forall|i: int| 0 <= i < s.len() ==> is_digit(#[trigger] s[i])
}

/// The number that a string of decimal digits writes.
pub open spec fn decimal_value(s: Seq<char>) -> nat
    decreases s.len(),
{
    if s.len() == 0 {
        0
    } else {
        10 * decimal_value(s.drop_last()) + (s.last() as nat - '0' as nat) as nat
    }
}

/// The decimal digits of a number, without leading zeros.
pub open spec fn decimal_digits(n: nat) -> Seq<char>
    decreases n,
{
    if n < 10 {
        seq![('0' as nat + n) as char]
    } else {
        decimal_digits(n / 10).push(('0' as nat + n % 10) as char)
    }
}

proof fn lemma_all_digits_push(s: Seq<char>, c: char)
    ensures
        all_digits(s.push(c)) == (all_digits(s) && is_digit(c)),
{
    if all_digits(s.push(c)) {
        assert forall|i: int| 0 <= i < s.len() implies is_digit(#[trigger] s[i]) by {
            assert(s.push(c)[i] == s[i]);
        }
        assert(s.push(c)[s.len() as int] == c);
    }
}

/// Decides whether a string holds only ASCII decimal digits.
pub fn is_all_digits(s: &str) -> (r: bool)
    ensures
        r == all_digits(s@),
{
    let mut r = true;
    for c in it: s.chars()
        invariant
            it.seq() == s@,
            r == all_digits(s@.take(it.index())),
    {
        let ghost n: int = it.index();
        proof {
            assert(s@.take(n + 1) =~= s@.take(n).push(c));
            lemma_all_digits_push(s@.take(n), c);
        }
        r = r && '0' <= c && c <= '9';
    }
    proof {
        assert(s@.take(s@.len() as int) =~= s@);
    }
    r
}

proof fn lemma_decimal_value_grows(s: Seq<char>, n: int)
    requires
        0 <= n <= s.len(),
        all_digits(s),
    ensures
        decimal_value(s.take(n)) <= decimal_value(s),
    decreases s.len(),
{
    if n < s.len() {
        let rest = s.drop_last();
        assert(rest.take(n) =~= s.take(n));
        lemma_decimal_value_grows(rest, n);
        assert(is_digit(s[s.len() - 1]));
    } else {
        assert(s.take(n) =~= s);
    }
}

/// Reads a string of decimal digits as a number; `None` where it exceeds
/// `i64::MAX`.
pub fn parse_digits(s: &str) -> (r: Option<i64>)
    requires
        all_digits(s@),
    ensures
        r == (if decimal_value(s@) <= i64::MAX {
            Some(decimal_value(s@) as i64)
        } else {
            None
        }),
{
    let mut value: i64 = 0;
    let mut fits = true;
    for c in it: s.chars()
        invariant
            it.seq() == s@,
            all_digits(s@),
            value >= 0,
            fits ==> value == decimal_value(s@.take(it.index())),
            !fits ==> decimal_value(s@) > i64::MAX,
    {
        let ghost n: int = it.index();
        proof {
            assert(s@[n] == c);
            assert(s@.take(n + 1).drop_last() =~= s@.take(n));
            lemma_decimal_value_grows(s@, n + 1);
        }
        let digit: i64 = (c as u32 - '0' as u32) as i64;
        if value <= (i64::MAX - digit) / 10 {
            value = 10 * value + digit;
        } else {
            fits = false;
        }
    }
    proof {
        assert(s@.take(s@.len() as int) =~= s@);
    }
    if fits {
        Some(value)
    } else {
        None
    }
}

/// Writes a number in decimal.
pub fn decimal_text(n: u16) -> (r: String)
    ensures
        r@ == decimal_digits(n as nat),
    decreases n,
{
    let last: char = (48 + (n % 10) as u8) as char;
    let mut r = if n < 10 {
        String::new()
    } else {
        decimal_text(n / 10)
    };
    r.push(last);
    r
}

/// Reading the decimal digits of a number gives the number back, and they begin
/// with a zero for the number zero alone.
pub proof fn law_decimal_digits_read_back(n: nat)
    ensures
        all_digits(decimal_digits(n)),
        decimal_value(decimal_digits(n)) == n,
        decimal_digits(n).len() > 0,
        decimal_digits(n).first() == '0' <==> n == 0,
    decreases n,
{
    let digits = decimal_digits(n);
    if n < 10 {
        assert(digits.drop_last() =~= Seq::<char>::empty());
        assert(decimal_value(digits.drop_last()) == 0);
    } else {
        law_decimal_digits_read_back(n / 10);
        assert(digits.drop_last() =~= decimal_digits(n / 10));
        assert(digits.first() == decimal_digits(n / 10).first());
    }
}

} // verus!
