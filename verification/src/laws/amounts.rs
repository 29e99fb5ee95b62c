//! Amounts as they are shown.
use crate::amount::{
    build_balance_message, exact_sol_text, has_nine_decimals, lemma_trimming_keeps_the_amount,
    trimmed,
};
use crate::laws::numbers::{all_digits, lemma_decimal, lemma_trim};
use crate::text::{decimal_text, digit_char, digits_value, is_digit, padded_text, trim_end_text};
use vstd::prelude::*;

verus! {

/// An amount in lamports is shown as the number of lamports, and the unit's name after it where it
/// is asked for, which is in the singular for one lamport alone.
pub proof fn lemma_lamports_are_shown_in_full(lamports: u64, show_unit: bool, shown: String)
    requires
        call_ensures(build_balance_message, (lamports, true, show_unit), shown),
    ensures
        exists|digits: Seq<char>, name: Seq<char>|
            {
                &&& shown@ == #[trigger] (digits + name)
                &&& digits.len() > 0
                &&& all_digits(digits)
                &&& lamports > 0 ==> digits[0] != '0'
                &&& digits_value(digits) == lamports
                &&& name == if !show_unit {
                    Seq::empty()
                } else if lamports == 1 {
                    seq![' ', 'l', 'a', 'm', 'p', 'o', 'r', 't']
                } else {
                    seq![' ', 'l', 'a', 'm', 'p', 'o', 'r', 't', 's']
                }
            },
{
    reveal_strlit("");
    reveal_strlit(" lamport");
    reveal_strlit(" lamports");
    lemma_decimal(lamports as nat);
    let digits = decimal_text(lamports as nat);
    let name = if !show_unit {
        Seq::empty()
    } else if lamports == 1 {
        seq![' ', 'l', 'a', 'm', 'p', 'o', 'r', 't']
    } else {
        seq![' ', 'l', 'a', 'm', 'p', 'o', 'r', 't', 's']
    };
    assert(" lamport"@ =~= seq![' ', 'l', 'a', 'm', 'p', 'o', 'r', 't']);
    assert(" lamports"@ =~= seq![' ', 'l', 'a', 'm', 'p', 'o', 'r', 't', 's']);
    assert(""@ =~= Seq::empty());
    assert(shown@ =~= digits + name);
}

proof fn lemma_padded(n: nat, width: nat)
    requires
        n < ten_to(width),
    ensures
        padded_text(n, width).len() == width,
        all_digits(padded_text(n, width)),
        digits_value(padded_text(n, width)) == n,
    decreases width,
{
    let s = padded_text(n, width);
    if width > 0 {
        let w = (width - 1) as nat;
        let r = ten_to(w);
        assert(n / 10 < r) by (nonlinear_arith)
            requires
                n < 10 * r,
        ;
        lemma_padded(n / 10, w);
        assert(s.drop_last() =~= padded_text(n / 10, w));
        assert(s.last() == digit_char((n % 10) as int));
        assert forall|i: int| 0 <= i < s.len() implies is_digit(#[trigger] s[i]) by {
            if i < s.len() - 1 {
                assert(s[i] == padded_text(n / 10, w)[i]);
            }
        }
    }
}

/// Ten to the power of `n`.
pub open spec fn ten_to(n: nat) -> nat
    decreases n,
{
    if n == 0 {
        1
    } else {
        10 * ten_to((n - 1) as nat)
    }
}

/// `kept` is what is left of the whole SOL, a point and the nine digits of the rest, once the zeros
/// that these end in are left out, and with them a point that nothing follows.
pub open spec fn is_left_of(kept: Seq<char>, whole: Seq<char>, nine: Seq<char>) -> bool {
    let full = whole + seq!['.'] + nine;
    &&& whole.len() <= kept.len() <= full.len()
    &&& kept == full.take(kept.len() as int)
    &&& is_digit(kept.last())
    &&& kept.len() > whole.len() ==> kept.last() != '0'
    &&& forall|i: int|
        kept.len() <= i < full.len() && i != whole.len() ==> #[trigger] full[i] == '0'
}

/// Below 2^23 SOL an amount in SOL shows every lamport: with the zeros that were left out put back,
/// it is the whole SOL, a point and nine digits for the lamports of the rest.
pub proof fn lemma_sol_is_shown_exactly(lamports: u64, show_unit: bool, shown: String) -> (parts: (
    Seq<char>,
    Seq<char>,
    Seq<char>,
))
    requires
        call_ensures(build_balance_message, (lamports, false, show_unit), shown),
        lamports < 8_388_608_000_000_000,
    ensures
        ({
            let (whole, nine, kept) = parts;
            &&& all_digits(whole)
            &&& whole.len() > 0
            &&& whole.len() > 1 ==> whole[0] != '0'
            &&& nine.len() == 9
            &&& all_digits(nine)
            &&& digits_value(whole) * 1_000_000_000 + digits_value(nine) == lamports
            &&& is_left_of(kept, whole, nine)
            &&& shown@ == kept + if show_unit {
                seq![' ', 'S', 'O', 'L']
            } else {
                Seq::empty()
            }
        }),
{
    reveal_strlit("");
    reveal_strlit(" SOL");
    reveal_strlit(".");
    reveal_with_fuel(ten_to, 10);
    let rest = lamports as nat % 1_000_000_000;
    let whole = decimal_text(lamports as nat / 1_000_000_000);
    let nine = padded_text(rest, 9);
    lemma_decimal(lamports as nat / 1_000_000_000);
    lemma_padded(rest, 9);
    let full = whole + seq!['.'] + nine;
    assert("."@ =~= seq!['.']);
    assert(exact_sol_text(lamports) =~= full);
    let kept = trimmed(full);
    assert(full.take(full.len() - 10) =~= whole);
    assert(full.skip(full.len() - 9) =~= nine);
    assert(full[full.len() - 10] == '.');
    assert(has_nine_decimals(full));
    lemma_trimming_keeps_the_amount(full);
    assert(kept =~= full.take(kept.len() as int));
    if lamports as nat / 1_000_000_000 == 0 {
        assert(whole.len() == 1);
    }
    if kept.len() > whole.len() && kept.last() == '0' {
        lemma_trimmed_end(full);
    }
    assert(" SOL"@ =~= seq![' ', 'S', 'O', 'L']);
    assert(""@ =~= Seq::empty());
    assert(shown@ =~= kept + if show_unit {
        seq![' ', 'S', 'O', 'L']
    } else {
        Seq::empty()
    });
    (whole, nine, kept)
}

/// What is left of a number with a point ends in a zero only where the zero stands before the point.
proof fn lemma_trimmed_end(full: Seq<char>)
    requires
        has_nine_decimals(full),
    ensures
        trimmed(full).len() > full.len() - 10 ==> trimmed(full).last() != '0',
{
    let a = trim_end_text(full, '0');
    lemma_trim(full, '0');
    lemma_trim(a, '.');
    let b = trimmed(full);
    let point = full.len() - 10;
    if b.len() > point {
        assert(a.len() > 0);
        assert(a.last() != '0');
        if b.len() < a.len() {
            assert(a[b.len() as int] == '.');
            assert(forall|i: int| b.len() <= i < a.len() ==> #[trigger] a[i] == '.');
            let last = a.len() - 1;
            assert(a[last] == '.');
            assert(a[last] == full[last]);
            if last > point {
                assert(full.skip(point + 1)[last - (point + 1)] == full[last]);
                assert(is_digit(full[last]));
            }
            lemma_trimming_keeps_the_amount(full);
        }
    }
}

} // verus!
