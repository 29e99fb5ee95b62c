//! Moments in time.
use crate::text::{contains_char, joined};
use vstd::prelude::*;

verus! {

/// Whether there is a moment `secs` seconds and `nanos` nanoseconds after the start of 1970.  A
/// leap second is told by more than a billion nanoseconds in the last second of a minute.
pub open spec fn is_moment(secs: int, nanos: int) -> bool {
    &&& -8_334_601_228_800 <= secs <= 8_210_266_876_799
    &&& 0 <= nanos
    &&& nanos < 1_000_000_000 || (nanos < 2_000_000_000 && secs % 60 == 59)
}

/// A moment: the seconds since the start of 1970 in UTC, and the nanoseconds since then.
#[derive(Clone, Copy, Debug, PartialEq, Eq, Structural)]
pub struct Timestamp {
    secs: i64,
    nanos: u32,
}

/// The result with its error as text to reason with.
pub open spec fn result_text<T>(r: Result<T, String>) -> Result<T, Seq<char>> {
    match r {
        Ok(value) => Ok(value),
        Err(text) => Err(text@),
    }
}

/// What a JSON text says as a date: its seconds and nanoseconds, or what is wrong with it.
pub uninterp spec fn date_parsed(json: Seq<char>) -> Result<(i64, u32), Seq<char>>;

/// `serde_json::from_str` into `chrono::DateTime<Utc>`.  Claimed: the date, or the error's text,
/// depends on the JSON text alone, and a date lies within chrono's range.
#[verifier::external_body]
fn read_date(json: &str) -> (r: Result<(i64, u32), String>)
    ensures
        result_text(r) == date_parsed(json@),
        r matches Ok(date) ==> is_moment(date.0 as int, date.1 as int),
{
    match serde_json::from_str::<chrono::DateTime<chrono::Utc>>(json) {
        Ok(date) => Ok((date.timestamp(), date.timestamp_subsec_nanos())),
        Err(error) => Err(error.to_string()),
    }
}

impl Timestamp {
    #[verifier::type_invariant]
    closed spec fn lies_in_range(self) -> bool {
        is_moment(self.secs as int, self.nanos as int)
    }

    /// The seconds since the start of 1970.
    pub closed spec fn spec_secs(self) -> i64 {
        self.secs
    }

    /// The nanoseconds since then.
    pub closed spec fn spec_nanos(self) -> u32 {
        self.nanos
    }

    /// The moment at `secs` and `nanos`, where there is one.
    pub fn new(secs: i64, nanos: u32) -> (r: Option<Self>)
        ensures
            r is Some <==> is_moment(secs as int, nanos as int),
            r matches Some(t) ==> t.spec_secs() == secs && t.spec_nanos() == nanos,
    {
        let second: i64 = secs % 60;
        let leap = second == 59 || second == -1;
        assert(leap == ((secs as int) % 60 == 59));
        if secs >= -8_334_601_228_800 && secs <= 8_210_266_876_799 && (nanos < 1_000_000_000 || (nanos
            < 2_000_000_000 && leap)) {
            Some(Timestamp { secs, nanos })
        } else {
            None
        }
    }

    /// The seconds since the start of 1970.
    pub fn secs(&self) -> (r: i64)
        ensures
            r == self.spec_secs(),
    {
        self.secs
    }

    /// The nanoseconds since then.
    pub fn nanos(&self) -> (r: u32)
        ensures
            r == self.spec_nanos(),
    {
        self.nanos
    }

    /// Every moment lies in the range.
    pub(crate) fn checked(&self) -> (r: (i64, u32))
        ensures
            r.0 == self.spec_secs(),
            r.1 == self.spec_nanos(),
            is_moment(r.0 as int, r.1 as int),
    {
        proof {
            use_type_invariant(*self);
        }
        (self.secs, self.nanos)
    }

    /// The date that `text` gives, which is one in UTC where it holds no `Z`.
    pub fn parse(text: &str) -> (r: Result<Self, String>)
        ensures
            is_date_of(r, text@),
    {
        let quoted = quoted_date(text);
        match read_date(quoted.as_str()) {
            Ok((secs, nanos)) => Ok(Timestamp { secs, nanos }),
            Err(error) => Err(error),
        }
    }
}

/// The JSON text of a date that `text` gives: quoted, and with a `Z` added where it holds none.
pub open spec fn date_json(text: Seq<char>) -> Seq<char> {
    if text.contains('Z') {
        "\""@ + text + "\""@
    } else {
        "\""@ + text + "Z\""@
    }
}

/// `r` is what reading `text` as a date gives.
pub open spec fn is_date_of(r: Result<Timestamp, String>, text: Seq<char>) -> bool {
    match r {
        Ok(t) => date_parsed(date_json(text)) == Ok::<(i64, u32), Seq<char>>(
            (t.spec_secs(), t.spec_nanos()),
        ),
        Err(error) => date_parsed(date_json(text)) == Err::<(i64, u32), Seq<char>>(error@),
    }
}

/// The JSON text of a date.
pub fn quoted_date(text: &str) -> (r: String)
    ensures
        r@ == date_json(text@),
{
    let open = joined("\"", text);
    if contains_char(text, 'Z') {
        joined(open.as_str(), "\"")
    } else {
        joined(open.as_str(), "Z\"")
    }
}

} // verus!
