use chrono::{DateTime, Utc};
use vstd::prelude::*;

verus! {

/// A point in time as seconds and nanoseconds since the Unix epoch, in UTC.
pub struct UnixTime {
    pub secs: i64,
    pub nanos: u32,
}

impl UnixTime {
    /// The nanoseconds are a fraction of one second.
    pub open spec fn wf(&self) -> bool {
        self.nanos < 1_000_000_000
    }
}

/// From 0001-01-01T00:00:00Z to 9999-12-31T23:59:59Z.
pub open spec fn in_four_digit_years(secs: int) -> bool {
    -62135596800 <= secs <= 253402300799
}

pub open spec fn is_digit(c: char) -> bool {
    '0' <= c && c <= '9'
}

pub open spec fn digit_char(d: int) -> char {
    if d <= 0 {
        '0'
    } else if d == 1 {
        '1'
    } else if d == 2 {
        '2'
    } else if d == 3 {
        '3'
    } else if d == 4 {
        '4'
    } else if d == 5 {
        '5'
    } else if d == 6 {
        '6'
    } else if d == 7 {
        '7'
    } else if d == 8 {
        '8'
    } else {
        '9'
    }
}

/// The last `width` decimal digits of `n`, zero-padded on the left.
pub open spec fn decimal_text(n: nat, width: nat) -> Seq<char>
    decreases width,
{
    if width == 0 {
        Seq::empty()
    } else {
        decimal_text(n / 10, (width - 1) as nat).push(digit_char((n % 10) as int))
    }
}

/// The subsecond part: nothing for a whole second, else a dot and the
/// fewest of 3, 6 or 9 digits that hold it exactly.
pub open spec fn fraction_text(nanos: nat) -> Seq<char> {
    if nanos == 0 {
        Seq::empty()
    } else if nanos % 1_000_000 == 0 {
        seq!['.'] + decimal_text(nanos / 1_000_000, 3)
    } else if nanos % 1000 == 0 {
        seq!['.'] + decimal_text(nanos / 1000, 6)
    } else {
        seq!['.'] + decimal_text(nanos, 9)
    }
}

pub open spec fn utc_offset_text() -> Seq<char> {
    seq!['+', '0', '0', ':', '0', '0']
}

/// The `YYYY-MM-DDTHH:MM:SS` part that chrono writes for a UTC instant.
pub uninterp spec fn utc_calendar_text(secs: int) -> Seq<char>;

/// How a UTC instant is written as RFC 3339 text.
pub open spec fn rfc3339_text(secs: int, nanos: nat) -> Seq<char> {
    utc_calendar_text(secs) + fraction_text(nanos) + utc_offset_text()
}

/// Four-digit year, two-digit month, day, hour, minute and second, with their separators.
pub open spec fn calendar_shape(t: Seq<char>) -> bool {
    &&& t.len() == 19
    &&& t[4] == '-' && t[7] == '-' && t[10] == 'T' && t[13] == ':' && t[16] == ':'
    &&& forall|i: int|
        0 <= i < 19 && i != 4 && i != 7 && i != 10 && i != 13 && i != 16 ==> is_digit(
            #[trigger] t[i],
        )
}

pub open spec fn is_fraction(f: Seq<char>) -> bool {
    f.len() == 0 || (f.len() >= 2 && f[0] == '.' && forall|i: int|
        1 <= i < f.len() ==> is_digit(#[trigger] f[i]))
}

pub open spec fn is_numeric_offset(o: Seq<char>) -> bool {
    &&& o.len() == 6
    &&& o[0] == '+' || o[0] == '-'
    &&& is_digit(o[1]) && is_digit(o[2]) && o[3] == ':' && is_digit(o[4]) && is_digit(o[5])
}

/// An RFC 3339 `date-time`: full date, `T`, time, optional fraction and a numeric offset.
pub open spec fn is_rfc3339(s: Seq<char>) -> bool {
    &&& s.len() >= 25
    &&& calendar_shape(s.subrange(0, 19))
    &&& is_fraction(s.subrange(19, s.len() - 6))
    &&& is_numeric_offset(s.subrange(s.len() - 6, s.len() as int))
}

pub proof fn lemma_decimal_text(n: nat, width: nat)
    ensures
        decimal_text(n, width).len() == width,
        forall|i: int| 0 <= i < width ==> is_digit(#[trigger] decimal_text(n, width)[i]),
    decreases width,
{
    if width > 0 {
        lemma_decimal_text(n / 10, (width - 1) as nat);
        let d = (n % 10) as int;
        assert(is_digit(digit_char(d)));
    }
}

pub proof fn lemma_fraction_text(nanos: nat)
    ensures
        is_fraction(fraction_text(nanos)),
{
    let f = fraction_text(nanos);
    if nanos != 0 {
        let (m, w) = if nanos % 1_000_000 == 0 {
            ((nanos / 1_000_000) as nat, 3nat)
        } else if nanos % 1000 == 0 {
            ((nanos / 1000) as nat, 6nat)
        } else {
            (nanos, 9nat)
        };
        lemma_decimal_text(m, w);
        assert(f == seq!['.'] + decimal_text(m, w));
        assert forall|i: int| 1 <= i < f.len() implies is_digit(#[trigger] f[i]) by {
            assert(f[i] == decimal_text(m, w)[i - 1]);
        }
    }
}

/// Text made of a calendar part of the right shape, a subsecond part and the
/// UTC offset is an RFC 3339 date-time.
pub proof fn lemma_rfc3339_syntax(calendar: Seq<char>, nanos: nat)
    requires
        calendar_shape(calendar),
    ensures
        is_rfc3339(calendar + fraction_text(nanos) + utc_offset_text()),
{
    let f = fraction_text(nanos);
    let s = calendar + f + utc_offset_text();
    lemma_fraction_text(nanos);
    assert(s.subrange(0, 19) =~= calendar);
    assert(s.subrange(19, s.len() - 6) =~= f);
    assert(s.subrange(s.len() - 6, s.len() as int) =~= utc_offset_text());
}

/// Relies on chrono's `DateTime::<Utc>::from_timestamp`, which gives `None`
/// only for instants beyond chrono's date range (far outside years 1 to
/// 9999), and on `DateTime::to_rfc3339`, which writes the calendar part as
/// `YYYY-MM-DDTHH:MM:SS` for such years, then the nanoseconds as
/// `fraction_text` says, then the offset `+00:00`.
#[verifier::external_body]
fn utc_rfc3339(secs: i64, nanos: u32) -> (r: Option<String>)
    requires
        nanos < 1_000_000_000,
    ensures
        r matches Some(t) ==> t@ == rfc3339_text(secs as int, nanos as nat),
        in_four_digit_years(secs as int) ==> r is Some,
        r is Some && in_four_digit_years(secs as int) ==> calendar_shape(utc_calendar_text(secs as int)),
{
    match DateTime::<Utc>::from_timestamp(secs, nanos) {
        Some(d) => Some(d.to_rfc3339()),
        None => None,
    }
}

/// The RFC 3339 text of `t`, or `None` where chrono cannot represent it.
pub fn capture_text(t: &UnixTime) -> (r: Option<String>)
    requires
        t.wf(),
    ensures
        r matches Some(s) ==> s@ == rfc3339_text(t.secs as int, t.nanos as nat) && (
        in_four_digit_years(t.secs as int) ==> is_rfc3339(s@)),
        in_four_digit_years(t.secs as int) ==> r is Some,
{
    let r = utc_rfc3339(t.secs, t.nanos);
    proof {
        if in_four_digit_years(t.secs as int) {
            lemma_rfc3339_syntax(utc_calendar_text(t.secs as int), t.nanos as nat);
        }
    }
    r
}

} // verus!
