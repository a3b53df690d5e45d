//! The instant a request is signed at, as plain calendar fields, and the
//! two stamps derived from it: the compact ISO-8601 basic timestamp
//! `YYYYMMDDTHHMMSSZ` that is signed, and the day-only stamp `YYYYMMDD`
//! that scopes the derived key.
//!
//! The clock is read through the `chrono` crate; everything computed from
//! the reading is verified here, so tests can supply fixed instants and
//! reproduce exact reference vectors.

use vstd::prelude::*;

verus! {

/// A UTC instant, held as plain calendar fields.
#[derive(Clone, Copy, PartialEq, Eq, Structural, Debug)]
pub struct UtcInstant {
    pub year: u16,
    pub month: u8,
    pub day: u8,
    pub hour: u8,
    pub minute: u8,
    pub second: u8,
}

impl UtcInstant {
    /// The fields fit a calendar date and a four-digit year.
    pub open spec fn wf(&self) -> bool {
        &&& self.year <= 9999
        &&& 1 <= self.month <= 12
        &&& 1 <= self.day <= 31
        &&& self.hour <= 23
        &&& self.minute <= 59
        &&& self.second <= 59
    }

    /// Builds an instant, rejecting fields that do not fit a calendar
    /// date or a four-digit year.
    pub fn new(year: u16, month: u8, day: u8, hour: u8, minute: u8, second: u8) -> (r: Option<
        UtcInstant,
    >)
        ensures
            r matches Some(t) ==> t.wf() && t == (UtcInstant {
                year,
                month,
                day,
                hour,
                minute,
                second,
            }),
            r is None <==> !(UtcInstant { year, month, day, hour, minute, second }).wf(),
    {
        if year <= 9999 && 1 <= month && month <= 12 && 1 <= day && day <= 31 && hour <= 23
            && minute <= 59 && second <= 59 {
            Some(UtcInstant { year, month, day, hour, minute, second })
        } else {
            None
        }
    }
}

/// One decimal digit.
pub open spec fn dec_digit(d: u8) -> char
    recommends
        d < 10,
{
    match d {
        0 => '0',
        1 => '1',
        2 => '2',
        3 => '3',
        4 => '4',
        5 => '5',
        6 => '6',
        7 => '7',
        8 => '8',
        _ => '9',
    }
}

/// A number below 100 as two digits, zero-padded.
pub open spec fn pad2(n: u8) -> Seq<char>
    recommends
        n < 100,
{
    seq![dec_digit(n / 10), dec_digit(n % 10)]
}

/// A number below 10000 as four digits, zero-padded.
pub open spec fn pad4(n: u16) -> Seq<char>
    recommends
        n < 10000,
{
    seq![
        dec_digit((n / 1000) as u8),
        dec_digit(((n / 100) % 10) as u8),
        dec_digit(((n / 10) % 10) as u8),
        dec_digit((n % 10) as u8),
    ]
}

/// The day-only stamp `YYYYMMDD` used as the derived key's date scope.
pub open spec fn spec_datestamp(t: UtcInstant) -> Seq<char> {
    pad4(t.year) + pad2(t.month) + pad2(t.day)
}

/// The compact ISO-8601 basic timestamp `YYYYMMDDTHHMMSSZ` that is signed.
pub open spec fn spec_timestamp(t: UtcInstant) -> Seq<char> {
    spec_datestamp(t) + seq!['T'] + pad2(t.hour) + pad2(t.minute) + pad2(t.second) + seq!['Z']
}

pub proof fn lemma_datestamp_len(t: UtcInstant)
    ensures
        spec_datestamp(t).len() == 8,
{
}

pub proof fn lemma_timestamp_len(t: UtcInstant)
    ensures
        spec_timestamp(t).len() == 16,
{
}

proof fn lemma_dec_digit_injective(d1: u8, d2: u8)
    requires
        d1 < 10,
        d2 < 10,
        dec_digit(d1) == dec_digit(d2),
    ensures
        d1 == d2,
{
}

proof fn lemma_pad2_injective(a: u8, b: u8)
    requires
        a < 100,
        b < 100,
        pad2(a) == pad2(b),
    ensures
        a == b,
{
    assert(pad2(a)[0] == pad2(b)[0] && pad2(a)[1] == pad2(b)[1]);
    lemma_dec_digit_injective(a / 10, b / 10);
    lemma_dec_digit_injective(a % 10, b % 10);
}

proof fn lemma_pad4_injective(a: u16, b: u16)
    requires
        a < 10000,
        b < 10000,
        pad4(a) == pad4(b),
    ensures
        a == b,
{
    assert(pad4(a)[0] == pad4(b)[0] && pad4(a)[1] == pad4(b)[1] && pad4(a)[2] == pad4(b)[2]
        && pad4(a)[3] == pad4(b)[3]);
    lemma_dec_digit_injective((a / 1000) as u8, (b / 1000) as u8);
    lemma_dec_digit_injective(((a / 100) % 10) as u8, ((b / 100) % 10) as u8);
    lemma_dec_digit_injective(((a / 10) % 10) as u8, ((b / 10) % 10) as u8);
    lemma_dec_digit_injective((a % 10) as u8, (b % 10) as u8);
    assert(a == 1000 * (a / 1000) + 100 * ((a / 100) % 10) + 10 * ((a / 10) % 10) + a % 10) by {
        assert(a / 100 == 10 * (a / 1000) + (a / 100) % 10);
        assert(a / 10 == 10 * (a / 100) + (a / 10) % 10);
        assert(a == 10 * (a / 10) + a % 10);
    }
    assert(b == 1000 * (b / 1000) + 100 * ((b / 100) % 10) + 10 * ((b / 10) % 10) + b % 10) by {
        assert(b / 100 == 10 * (b / 1000) + (b / 100) % 10);
        assert(b / 10 == 10 * (b / 100) + (b / 10) % 10);
        assert(b == 10 * (b / 10) + b % 10);
    }
}

/// Two different well-formed instants always format to two different
/// timestamps: every field is readable back out of its fixed position.
pub proof fn lemma_timestamp_injective(t1: UtcInstant, t2: UtcInstant)
    requires
        t1.wf(),
        t2.wf(),
        spec_timestamp(t1) == spec_timestamp(t2),
    ensures
        t1 == t2,
{
    let s1 = spec_timestamp(t1);
    let s2 = spec_timestamp(t2);
    assert(pad4(t1.year) =~= pad4(t2.year)) by {
        assert forall|i: int| 0 <= i < 4 implies pad4(t1.year)[i] == pad4(t2.year)[i] by {
            assert(s1[i] == pad4(t1.year)[i] && s2[i] == pad4(t2.year)[i]);
        }
    }
    assert(pad2(t1.month) =~= pad2(t2.month)) by {
        assert forall|i: int| 0 <= i < 2 implies pad2(t1.month)[i] == pad2(t2.month)[i] by {
            assert(s1[i + 4] == pad2(t1.month)[i] && s2[i + 4] == pad2(t2.month)[i]);
        }
    }
    assert(pad2(t1.day) =~= pad2(t2.day)) by {
        assert forall|i: int| 0 <= i < 2 implies pad2(t1.day)[i] == pad2(t2.day)[i] by {
            assert(s1[i + 6] == pad2(t1.day)[i] && s2[i + 6] == pad2(t2.day)[i]);
        }
    }
    assert(pad2(t1.hour) =~= pad2(t2.hour)) by {
        assert forall|i: int| 0 <= i < 2 implies pad2(t1.hour)[i] == pad2(t2.hour)[i] by {
            assert(s1[i + 9] == pad2(t1.hour)[i] && s2[i + 9] == pad2(t2.hour)[i]);
        }
    }
    assert(pad2(t1.minute) =~= pad2(t2.minute)) by {
        assert forall|i: int| 0 <= i < 2 implies pad2(t1.minute)[i] == pad2(t2.minute)[i] by {
            assert(s1[i + 11] == pad2(t1.minute)[i] && s2[i + 11] == pad2(t2.minute)[i]);
        }
    }
    assert(pad2(t1.second) =~= pad2(t2.second)) by {
        assert forall|i: int| 0 <= i < 2 implies pad2(t1.second)[i] == pad2(t2.second)[i] by {
            assert(s1[i + 13] == pad2(t1.second)[i] && s2[i + 13] == pad2(t2.second)[i]);
        }
    }
    lemma_pad4_injective(t1.year, t2.year);
    lemma_pad2_injective(t1.month, t2.month);
    lemma_pad2_injective(t1.day, t2.day);
    lemma_pad2_injective(t1.hour, t2.hour);
    lemma_pad2_injective(t1.minute, t2.minute);
    lemma_pad2_injective(t1.second, t2.second);
}

/// One decimal digit as a string slice.
fn digit_str(d: u8) -> (r: &'static str)
    requires
        d < 10,
    ensures
        r@ == seq![dec_digit(d)],
{
    proof {
        reveal_strlit("0");
        reveal_strlit("1");
        reveal_strlit("2");
        reveal_strlit("3");
        reveal_strlit("4");
        reveal_strlit("5");
        reveal_strlit("6");
        reveal_strlit("7");
        reveal_strlit("8");
        reveal_strlit("9");
    }
    match d {
        0 => "0",
        1 => "1",
        2 => "2",
        3 => "3",
        4 => "4",
        5 => "5",
        6 => "6",
        7 => "7",
        8 => "8",
        _ => "9",
    }
}

fn push_pad2(s: &mut String, n: u8)
    requires
        n < 100,
    ensures
        final(s)@ == old(s)@ + pad2(n),
{
    s.append(digit_str(n / 10));
    s.append(digit_str(n % 10));
    assert(final(s)@ =~= old(s)@ + pad2(n));
}

fn push_pad4(s: &mut String, n: u16)
    requires
        n < 10000,
    ensures
        final(s)@ == old(s)@ + pad4(n),
{
    s.append(digit_str((n / 1000) as u8));
    s.append(digit_str(((n / 100) % 10) as u8));
    s.append(digit_str(((n / 10) % 10) as u8));
    s.append(digit_str((n % 10) as u8));
    assert(final(s)@ =~= old(s)@ + pad4(n));
}

/// Renders the day-only stamp `YYYYMMDD`.
pub fn format_datestamp(t: &UtcInstant) -> (r: String)
    requires
        t.wf(),
    ensures
        r@ == spec_datestamp(*t),
{
    let mut s = String::new();
    push_pad4(&mut s, t.year);
    push_pad2(&mut s, t.month);
    push_pad2(&mut s, t.day);
    proof {
        assert(s@ =~= spec_datestamp(*t));
    }
    s
}

/// Renders the full signed timestamp `YYYYMMDDTHHMMSSZ`.
pub fn format_timestamp(t: &UtcInstant) -> (r: String)
    requires
        t.wf(),
    ensures
        r@ == spec_timestamp(*t),
{
    proof {
        reveal_strlit("T");
        reveal_strlit("Z");
    }
    let mut s = String::new();
    push_pad4(&mut s, t.year);
    push_pad2(&mut s, t.month);
    push_pad2(&mut s, t.day);
    s.append("T");
    push_pad2(&mut s, t.hour);
    push_pad2(&mut s, t.minute);
    push_pad2(&mut s, t.second);
    s.append("Z");
    proof {
        assert(s@ =~= spec_timestamp(*t));
    }
    s
}

/// Relies on `chrono::Utc::now` and the `Datelike`/`Timelike` accessors:
/// the field ranges are those chrono documents (month 1-12, day 1-31,
/// hour 0-23, minute and second 0-59). Nothing is claimed of the year,
/// which depends on the system clock.
#[verifier::external_body]
fn utc_now_raw() -> (t: UtcInstant)
    ensures
        1 <= t.month <= 12,
        1 <= t.day <= 31,
        t.hour <= 23,
        t.minute <= 59,
        t.second <= 59,
{
    let now = chrono::Utc::now();
    UtcInstant {
        year: u16::try_from(chrono::Datelike::year(&now)).unwrap_or(u16::MAX),
        month: chrono::Datelike::month(&now) as u8,
        day: chrono::Datelike::day(&now) as u8,
        hour: chrono::Timelike::hour(&now) as u8,
        minute: chrono::Timelike::minute(&now) as u8,
        second: chrono::Timelike::second(&now) as u8,
    }
}

/// Reads the wall clock. `None` only if the system clock reports a year
/// that does not fit four digits.
pub fn current_instant() -> (r: Option<UtcInstant>)
    ensures
        r matches Some(t) ==> t.wf(),
{
    let t = utc_now_raw();
    if t.year <= 9999 {
        Some(t)
    } else {
        None
    }
}

} // verus!
