//! Numbers as text.
use crate::amount::parse_amount;
use crate::matches::ArgMatches;
use crate::text::{
    chars_of, contains_char, cut_at, decimal, decimal_text, digits_value, is_digit, joined,
    parse_u64, run_before, starts_with, text_eq, trim_end, trim_end_text, unsigned_digits,
};
use vstd::prelude::*;

verus! {

/// All of the characters are digits.
pub open spec fn all_digits(s: Seq<char>) -> bool {
    forall|i: int| 0 <= i < s.len() ==> is_digit(#[trigger] s[i])
}

/// A digit alone is the number that it shows.
pub proof fn lemma_one_digit_reads_as_itself(text: &str, d: int, read: Option<u64>)
    requires
        call_ensures(parse_u64, (text,), read),
        0 <= d < 10,
        text@ == seq![('0' as int + d) as char],
    ensures
        read == Some(d as u64),
{
    assert(text@.drop_last() =~= Seq::empty());
    assert(digits_value(text@.drop_last()) == 0);
    assert(is_digit(text@[0]));
}

/// One more digit makes ten times the number, and the digit.  A number that is too large is none.
pub proof fn lemma_another_digit_counts_ten_times(
    text: &str,
    longer: &str,
    d: int,
    read: Option<u64>,
    read_longer: Option<u64>,
)
    requires
        call_ensures(parse_u64, (text,), read),
        call_ensures(parse_u64, (longer,), read_longer),
        0 <= d < 10,
        text@.len() > 0,
        all_digits(text@),
        longer@ == text@.push(('0' as int + d) as char),
    ensures
        read matches Some(n) ==> if 10 * n + d <= u64::MAX {
            read_longer == Some((10 * n + d) as u64)
        } else {
            read_longer is None
        },
        read is None ==> read_longer is None,
{
    assert(is_digit(text@[0]));
    assert(longer@[0] == text@[0]);
    assert(longer@.drop_last() =~= text@);
    assert forall|i: int| 0 <= i < longer@.len() implies is_digit(#[trigger] longer@[i]) by {
        if i < text@.len() {
            assert(longer@[i] == text@[i]);
        }
    }
    assert(digits_value(longer@) == digits_value(text@) * 10 + d);
}

/// A plus sign before the digits says nothing more.
pub proof fn lemma_a_plus_sign_changes_nothing(
    text: &str,
    signed: &str,
    read: Option<u64>,
    read_signed: Option<u64>,
)
    requires
        call_ensures(parse_u64, (text,), read),
        call_ensures(parse_u64, (signed,), read_signed),
        text@.len() > 0,
        all_digits(text@),
        signed@ == seq!['+'] + text@,
    ensures
        read_signed == read,
{
    assert(signed@.skip(1) =~= text@);
    assert(is_digit(text@[0]));
}

/// What holds anything else is no number, nor is an empty text.
pub proof fn lemma_only_digits_are_numbers(text: &str, read: Option<u64>)
    requires
        call_ensures(parse_u64, (text,), read),
        text@.len() == 0 || exists|i: int|
            0 <= i < text@.len() && !is_digit(#[trigger] text@[i]) && !(i == 0 && text@[i] == '+'),
    ensures
        read is None,
{
    if text@.len() > 0 {
        let i = choose|i: int|
            0 <= i < text@.len() && !is_digit(#[trigger] text@[i]) && !(i == 0 && text@[i] == '+');
        let digits = unsigned_digits(text@);
        if text@.len() > 1 && text@[0] == '+' {
            assert(digits[i - 1] == text@[i]);
        } else {
            assert(digits[i] == text@[i]);
        }
    }
}

pub(crate) proof fn lemma_decimal(n: nat)
    ensures
        all_digits(decimal_text(n)),
        decimal_text(n).len() > 0,
        digits_value(decimal_text(n)) == n,
        n > 0 ==> decimal_text(n)[0] != '0',
    decreases n,
{
    let s = decimal_text(n);
    if n < 10 {
        assert(s.drop_last() =~= Seq::empty());
        assert(digits_value(s.drop_last()) == 0);
    } else {
        lemma_decimal(n / 10);
        assert(s.drop_last() =~= decimal_text(n / 10));
        assert(s[0] == decimal_text(n / 10)[0]);
    }
}

/// A number is shown in digits, without zeros before it, and reads back as the same number.
pub proof fn lemma_shown_numbers_read_back(n: u64, shown: String, text: &str, read: Option<u64>)
    requires
        call_ensures(decimal, (n,), shown),
        text@ == shown@,
        call_ensures(parse_u64, (text,), read),
    ensures
        all_digits(shown@),
        shown@.len() > 0,
        n > 0 ==> shown@[0] != '0',
        n == 0 ==> shown@.len() == 1,
        read == Some(n),
{
    lemma_decimal(n as nat);
    assert(is_digit(shown@[0]));
}

/// An amount in lamports is the number that its text spells.
pub proof fn lemma_lamports_are_whole_numbers(
    text: &str,
    lamports: Option<u64>,
    read: Option<u64>,
    sol: Option<u64>,
)
    requires
        call_ensures(parse_amount, (text, true), lamports),
        call_ensures(parse_amount, (text, false), sol),
        call_ensures(parse_u64, (text,), read),
    ensures
        lamports == read,
        read matches Some(n) ==> n <= 4_000_000_000 ==> sol == Some((n * 1_000_000_000) as u64),
{
}

/// An amount is in lamports where the unit says `lamports`, and in SOL where it does not.
pub proof fn lemma_amounts_are_in_their_unit(
    matches: &ArgMatches,
    name: &str,
    unit: &str,
    value: Option<&str>,
    given: Option<&str>,
    amount: Option<u64>,
    read: Option<u64>,
)
    requires
        call_ensures(ArgMatches::value_of, (matches, name), value),
        call_ensures(ArgMatches::value_of, (matches, unit), given),
        call_ensures(ArgMatches::amount_of, (matches, name, unit), amount),
        value is Some,
        call_ensures(
            parse_amount,
            (value->0, given is Some && given->0@ == "lamports"@),
            read,
        ),
    ensures
        amount == read,
{
}

pub(crate) proof fn lemma_trim(s: Seq<char>, c: char)
    ensures
        trim_end_text(s, c).len() <= s.len(),
        trim_end_text(s, c) == s.take(trim_end_text(s, c).len() as int),
        trim_end_text(s, c).len() > 0 ==> trim_end_text(s, c).last() != c,
        forall|i: int| trim_end_text(s, c).len() <= i < s.len() ==> #[trigger] s[i] == c,
    decreases s.len(),
{
    if s.len() > 0 && s.last() == c {
        let shorter = s.drop_last();
        lemma_trim(shorter, c);
        let t = trim_end_text(s, c);
        assert(t =~= s.take(t.len() as int));
        assert forall|i: int| t.len() <= i < s.len() implies #[trigger] s[i] == c by {
            if i < s.len() - 1 {
                assert(shorter[i] == s[i]);
            }
        }
    } else {
        assert(s =~= s.take(s.len() as int));
    }
}

/// Trimming takes away all of the characters that a text ends in, and no other.
pub proof fn lemma_trimming_takes_away_the_end(text: &str, c: char, trimmed: &str)
    requires
        call_ensures(trim_end, (text, c), trimmed),
    ensures
        trimmed@.len() <= text@.len(),
        trimmed@ == text@.take(trimmed@.len() as int),
        trimmed@.len() > 0 ==> trimmed@.last() != c,
        forall|i: int| trimmed@.len() <= i < text@.len() ==> #[trigger] text@[i] == c,
{
    lemma_trim(text@, c);
}

proof fn lemma_run(s: Seq<char>, c: char)
    ensures
        run_before(s, c) <= s.len(),
        forall|i: int| 0 <= i < run_before(s, c) ==> #[trigger] s[i] != c,
        run_before(s, c) < s.len() ==> s[run_before(s, c) as int] == c,
    decreases s.len(),
{
    if s.len() > 0 && s[0] != c {
        let rest = s.skip(1);
        lemma_run(rest, c);
        assert forall|i: int| 0 <= i < run_before(s, c) implies #[trigger] s[i] != c by {
            if i > 0 {
                assert(rest[i - 1] == s[i]);
            }
        }
        if run_before(s, c) < s.len() {
            assert(rest[run_before(rest, c) as int] == s[run_before(s, c) as int]);
        }
    }
}

/// Put together again, the two parts of a text with the mark between them are the text, and the
/// first does not hold the mark.  A text without the mark has one part.
pub proof fn lemma_cut_texts_can_be_put_together(text: &str, c: char, parts: (&str, Option<&str>))
    requires
        call_ensures(cut_at, (text, c), parts),
    ensures
        !parts.0@.contains(c),
        match parts.1 {
            Some(rest) => text@ == parts.0@ + seq![c] + rest@,
            None => text@ == parts.0@,
        },
{
    lemma_run(text@, c);
    let n = run_before(text@, c);
    assert forall|i: int| 0 <= i < parts.0@.len() implies parts.0@[i] != c by {
        assert(parts.0@[i] == text@[i]);
    }
    match parts.1 {
        Some(rest) => {
            assert(text@ =~= parts.0@ + seq![c] + rest@);
        },
        None => {
            assert(text@ =~= parts.0@);
        },
    }
}

/// One text joined to another has the characters of the one and then those of the other.
pub proof fn lemma_joined_texts_hold_both(a: &str, b: &str, both: String)
    requires
        call_ensures(joined, (a, b), both),
    ensures
        both@.len() == a@.len() + b@.len(),
        forall|i: int| 0 <= i < a@.len() ==> #[trigger] both@[i] == a@[i],
        forall|i: int| a@.len() <= i < both@.len() ==> #[trigger] both@[i] == b@[i - a@.len()],
{
}

/// Texts are the same where their characters are, one by one, and hold a character where one of
/// theirs is it.
pub proof fn lemma_texts_are_their_characters(
    a: &str,
    b: &str,
    same: bool,
    chars: Vec<char>,
    c: char,
    held: bool,
)
    requires
        call_ensures(text_eq, (a, b), same),
        call_ensures(chars_of, (a,), chars),
        call_ensures(contains_char, (a, c), held),
    ensures
        same <==> a@.len() == b@.len() && forall|i: int|
            0 <= i < a@.len() ==> #[trigger] a@[i] == b@[i],
        chars@.len() == a@.len(),
        forall|i: int| 0 <= i < a@.len() ==> #[trigger] chars@[i] == a@[i],
        held <==> exists|i: int| 0 <= i < a@.len() && #[trigger] a@[i] == c,
{
    if a@.len() == b@.len() && forall|i: int| 0 <= i < a@.len() ==> #[trigger] a@[i] == b@[i] {
        assert(a@ =~= b@);
    }
}

/// A text begins with another where the other is as long and the same as far as it goes.
pub proof fn lemma_texts_begin_with_their_prefixes(text: &str, prefix: &str, begins: bool)
    requires
        call_ensures(starts_with, (text, prefix), begins),
    ensures
        begins <==> prefix@.len() <= text@.len() && forall|i: int|
            0 <= i < prefix@.len() ==> #[trigger] text@[i] == prefix@[i],
{
    if prefix@.len() <= text@.len() && forall|i: int|
        0 <= i < prefix@.len() ==> #[trigger] text@[i] == prefix@[i] {
        assert(prefix@ =~= text@.subrange(0, prefix@.len() as int));
    }
    if begins {
        assert(prefix@ == text@.subrange(0, prefix@.len() as int));
        assert forall|i: int| 0 <= i < prefix@.len() implies #[trigger] text@[i] == prefix@[i] by {
            assert(text@.subrange(0, prefix@.len() as int)[i] == text@[i]);
        }
    }
}

} // verus!
