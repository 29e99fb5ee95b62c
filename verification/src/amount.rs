//! Amounts of lamports and SOL as text.
use crate::text::{
    decimal, decimal_text, digits_value, is_digit, joined, padded_text, parse_u64, trim_end,
    trim_end_text, unsigned_digits, unsigned_value,
};
use vstd::prelude::*;

verus! {

/// How many lamports make one SOL.
pub open spec fn lamports_per_sol() -> nat {
    1_000_000_000
}

/// The amount in SOL with nine decimals, as floating-point division and printing give it.
pub uninterp spec fn sol_text(lamports: u64) -> Seq<char>;

/// The lamports of the floating-point amount of SOL that a text spells, where it spells one.
pub uninterp spec fn sol_parsed(text: Seq<char>) -> Option<u64>;

/// The amount in SOL with nine decimals.
pub open spec fn exact_sol_text(lamports: u64) -> Seq<char> {
    decimal_text(lamports as nat / lamports_per_sol()) + "."@ + padded_text(
        lamports as nat % lamports_per_sol(),
        9,
    )
}

/// One or more digits.
pub open spec fn are_digits(s: Seq<char>) -> bool {
    s.len() > 0 && forall|i: int| 0 <= i < s.len() ==> is_digit(#[trigger] s[i])
}

/// `s` is a number with nine decimals.
pub open spec fn has_nine_decimals(s: Seq<char>) -> bool {
    &&& s.len() > 10
    &&& are_digits(s.take(s.len() - 10))
    &&& s[s.len() - 10] == '.'
    &&& are_digits(s.skip(s.len() - 9))
}

/// `solana_sdk::native_token::lamports_to_sol`, printed with nine decimals.  Claimed: the text
/// depends on the lamports alone and is a number with nine decimals.  Below 2^23 SOL the nearest
/// floating-point number lies within half of a lamport, so there the decimals are exact.
#[verifier::external_body]
fn show_sol(lamports: u64) -> (r: String)
    ensures
        r@ == sol_text(lamports),
        has_nine_decimals(r@),
        lamports < 8_388_608_000_000_000 ==> r@ == exact_sol_text(lamports),
{
    format!("{:.9}", solana_sdk::native_token::lamports_to_sol(lamports))
}

/// `str::parse` into the argument of `solana_sdk::native_token::sol_to_lamports`, then that
/// function.  Claimed: the result depends on the text alone, and a whole number of at most four
/// billion SOL, which a floating-point number holds exactly, gives its lamports exactly.
#[verifier::external_body]
fn read_sol(text: &str) -> (r: Option<u64>)
    ensures
        r == sol_parsed(text@),
        unsigned_value(text@) matches Some(sol) ==> sol <= 4_000_000_000 ==> r == Some(
            (sol * lamports_per_sol()) as u64,
        ),
{
    text.parse().ok().map(solana_sdk::native_token::sol_to_lamports)
}

/// A number without the zeros that its decimals end in, and without a point that nothing follows.
pub open spec fn trimmed(s: Seq<char>) -> Seq<char> {
    trim_end_text(trim_end_text(s, '0'), '.')
}

/// An amount in the unit asked for, with the unit's name where it is asked for.
pub open spec fn balance_text(lamports: u64, use_lamports_unit: bool, show_unit: bool) -> Seq<char> {
    if use_lamports_unit {
        decimal_text(lamports as nat) + (if !show_unit {
            ""@
        } else if lamports == 1 {
            " lamport"@
        } else {
            " lamports"@
        })
    } else {
        trimmed(sol_text(lamports)) + (if show_unit {
            " SOL"@
        } else {
            ""@
        })
    }
}

proof fn lemma_trim_end(s: Seq<char>, c: char)
    ensures
        trim_end_text(s, c).is_prefix_of(s),
        trim_end_text(s, c).len() > 0 ==> trim_end_text(s, c).last() != c,
        forall|i: int| trim_end_text(s, c).len() <= i < s.len() ==> #[trigger] s[i] == c,
    decreases s.len(),
{
    if s.len() > 0 && s.last() == c {
        lemma_trim_end(s.drop_last(), c);
        let t = trim_end_text(s, c);
        assert(t =~= s.take(t.len() as int));
        assert forall|i: int| t.len() <= i < s.len() implies #[trigger] s[i] == c by {
            if i < s.len() - 1 {
                assert(s.drop_last()[i] == s[i]);
            }
        }
    } else {
        assert(s =~= s.take(s.len() as int));
    }
}

/// Trimming a number with nine decimals takes away no digit but zeros behind the point: what is
/// left begins the number, ends in a digit and keeps the whole part.
pub proof fn lemma_trimming_keeps_the_amount(s: Seq<char>)
    requires
        has_nine_decimals(s),
    ensures
        trimmed(s).is_prefix_of(s),
        trimmed(s).len() >= s.len() - 10,
        trimmed(s).len() > 0,
        is_digit(trimmed(s).last()),
        forall|i: int|
            trimmed(s).len() <= i < s.len() && i != s.len() - 10 ==> #[trigger] s[i] == '0',
{
    let point = s.len() - 10;
    let a = trim_end_text(s, '0');
    lemma_trim_end(s, '0');
    lemma_trim_end(a, '.');
    let b = trimmed(s);
    assert(a =~= s.take(a.len() as int));
    assert(a.len() > point) by {
        if a.len() <= point {
            assert(s[point] == '0');
        }
    }
    assert(b =~= a.take(b.len() as int));
    assert(b =~= s.take(b.len() as int));
    assert(s.take(point)[point - 1] == s[point - 1]);
    assert(is_digit(s[point - 1]));
    assert(b.len() >= point) by {
        if b.len() < point {
            assert(a[point - 1] == '.');
        }
    }
    if b.len() > point + 1 {
        let i = b.len() - 1;
        assert(s.skip(point + 1)[i - (point + 1)] == s[i as int]);
        assert(is_digit(s[i as int]));
    } else if b.len() == point + 1 {
        assert(b.last() == s[point]);
    } else {
        assert(b.last() == s[point - 1]);
    }
    assert forall|i: int| b.len() <= i < s.len() && i != point implies #[trigger] s[i] == '0' by {
        if i < a.len() {
            assert(a[i] == '.');
            assert(s.skip(point + 1)[i - (point + 1)] == s[i]);
            assert(is_digit(s[i]));
        }
    }
}

/// An amount as it is shown.
pub fn build_balance_message(lamports: u64, use_lamports_unit: bool, show_unit: bool) -> (r: String)
    ensures
        r@ == balance_text(lamports, use_lamports_unit, show_unit),
        !use_lamports_unit && lamports < 8_388_608_000_000_000 ==> r@ == trimmed(
            exact_sol_text(lamports),
        ) + (if show_unit {
            " SOL"@
        } else {
            ""@
        }),
        !show_unit ==> r@.len() > 0 && is_digit(r@.last()),
{
    proof {
        reveal_strlit("");
    }
    if use_lamports_unit {
        let text = decimal(lamports);
        proof {
            lemma_decimal_text(lamports as nat);
        }
        if show_unit {
            joined(
                text.as_str(),
                if lamports == 1 {
                    " lamport"
                } else {
                    " lamports"
                },
            )
        } else {
            assert(text@ + ""@ =~= text@);
            text
        }
    } else {
        let sol = show_sol(lamports);
        proof {
            lemma_trimming_keeps_the_amount(sol@);
        }
        let pretty = trim_end(trim_end(sol.as_str(), '0'), '.');
        assert(pretty@ + ""@ =~= pretty@);
        joined(
            pretty,
            if show_unit {
                " SOL"
            } else {
                ""
            },
        )
    }
}

proof fn lemma_decimal_text(n: nat)
    ensures
        decimal_text(n).len() > 0,
        is_digit(decimal_text(n).last()),
    decreases n,
{
}

proof fn lemma_decimal_reads_back(n: nat)
    ensures
        are_digits(decimal_text(n)),
        digits_value(decimal_text(n)) == n,
    decreases n,
{
    let s = decimal_text(n);
    if n < 10 {
        assert(s.drop_last() =~= Seq::empty());
        assert(digits_value(s.drop_last()) == 0);
    } else {
        lemma_decimal_reads_back(n / 10);
        assert(s.drop_last() =~= decimal_text(n / 10));
    }
}

/// An amount shown in lamports, without the unit's name, reads back as the same amount.
pub proof fn lemma_shown_lamports_read_back(lamports: u64)
    ensures
        amount_parsed(balance_text(lamports, true, false), true) == Some(lamports),
{
    let s = decimal_text(lamports as nat);
    lemma_decimal_reads_back(lamports as nat);
    reveal_strlit("");
    assert(balance_text(lamports, true, false) =~= s);
    assert(is_digit(s[0]));
    assert(unsigned_digits(s) == s);
}

/// The lamports that `text` spells in the unit.
pub open spec fn amount_parsed(text: Seq<char>, in_lamports: bool) -> Option<u64> {
    if !in_lamports {
        sol_parsed(text)
    } else {
        match unsigned_value(text) {
            Some(lamports) if lamports <= u64::MAX => Some(lamports as u64),
            _ => None,
        }
    }
}

/// The lamports that `text` spells in the unit.
pub fn parse_amount(text: &str, in_lamports: bool) -> (r: Option<u64>)
    ensures
        r == amount_parsed(text@, in_lamports),
        unsigned_value(text@) matches Some(sol) ==> !in_lamports && sol <= 4_000_000_000 ==> r
            == Some((sol * lamports_per_sol()) as u64),
{
    if in_lamports {
        parse_u64(text)
    } else {
        read_sol(text)
    }
}

} // verus!
