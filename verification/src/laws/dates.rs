//! Dates.
use crate::time::{date_parsed, quoted_date, Timestamp};
use vstd::prelude::*;

verus! {

/// The JSON text of a date is the date in quotation marks, with a `Z` behind it where it holds
/// none.
pub proof fn lemma_dates_are_quoted_in_utc(text: &str, quoted: String)
    requires
        call_ensures(quoted_date, (text,), quoted),
    ensures
        ({
            let n = text@.len() as int;
            &&& quoted@.len() == if text@.contains('Z') { n + 2 } else { n + 3 }
            &&& quoted@[0] == '"'
            &&& quoted@.subrange(1, 1 + n) == text@
            &&& quoted@.last() == '"'
            &&& !text@.contains('Z') ==> quoted@[n + 1] == 'Z'
            &&& quoted@.contains('Z')
        }),
{
    reveal_strlit("\"");
    reveal_strlit("Z\"");
    let n = text@.len() as int;
    assert(quoted@.subrange(1, 1 + n) =~= text@);
    if text@.contains('Z') {
        let i = choose|i: int| 0 <= i < n && text@[i] == 'Z';
        assert(quoted@[i + 1] == 'Z');
    } else {
        assert(quoted@[n + 1] == 'Z');
    }
}

/// A date that was read is the moment that its JSON text gives, to the nanosecond, and one that
/// cannot be read is refused with what is wrong with it.
pub proof fn lemma_dates_are_read_to_the_nanosecond(
    text: &str,
    quoted: String,
    read: Result<Timestamp, String>,
    secs: i64,
    nanos: u32,
)
    requires
        call_ensures(quoted_date, (text,), quoted),
        call_ensures(Timestamp::parse, (text,), read),
        read matches Ok(date) ==> call_ensures(Timestamp::secs, (&date,), secs),
        read matches Ok(date) ==> call_ensures(Timestamp::nanos, (&date,), nanos),
    ensures
        read is Ok ==> date_parsed(quoted@) == Ok::<(i64, u32), Seq<char>>((secs, nanos)),
        read matches Err(error) ==> date_parsed(quoted@) == Err::<(i64, u32), Seq<char>>(error@),
{
}

/// A moment has the seconds and nanoseconds that it was made with.  There is one for each second
/// from the start of the year -262143 to the end of the year 262142, and each nanosecond in it; the
/// last second of a minute may take twice as long.
pub proof fn lemma_moments_are_what_they_were_made_with(
    secs: i64,
    nanos: u32,
    made: Option<Timestamp>,
    got_secs: i64,
    got_nanos: u32,
)
    requires
        call_ensures(Timestamp::new, (secs, nanos), made),
        made matches Some(date) ==> call_ensures(Timestamp::secs, (&date,), got_secs),
        made matches Some(date) ==> call_ensures(Timestamp::nanos, (&date,), got_nanos),
    ensures
        made is Some ==> got_secs == secs && got_nanos == nanos,
        made is Some <==> -8_334_601_228_800 <= secs <= 8_210_266_876_799 && (nanos
            < 1_000_000_000 || (nanos < 2_000_000_000 && secs as int % 60 == 59)),
{
}

} // verus!
