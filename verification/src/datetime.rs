//! The `date` command: the current local time is obtained from the system
//! clock, and its rendering as `YYYY-MM-DD HH:MM:SS` is verified here on
//! plain component values.

use vstd::prelude::*;
use vstd::string::StringExecFns;
use chrono::Datelike;
use chrono::Timelike;
use crate::text::dec_digits;
use crate::text::dec_u64;

verus! {

/// One local calendar time, broken into its components.
pub struct LocalTime {
    pub year: i32,
    pub month: u32,
    pub day: u32,
    pub hour: u32,
    pub minute: u32,
    pub second: u32,
}

impl LocalTime {
    /// The component ranges of a calendar time.
    pub open spec fn wf(&self) -> bool {
        &&& 1 <= self.month <= 12
        &&& 1 <= self.day <= 31
        &&& self.hour <= 23
        &&& self.minute <= 59
        &&& self.second <= 59
    }
}

/// A number padded with leading zeroes to at least two digits.
pub open spec fn pad2_digits(n: nat) -> Seq<char> {
    if n < 10 {
        seq!['0'] + dec_digits(n)
    } else {
        dec_digits(n)
    }
}

/// A number padded with leading zeroes to at least four digits.
pub open spec fn pad4_digits(n: nat) -> Seq<char> {
    if n < 10 {
        seq!['0', '0', '0'] + dec_digits(n)
    } else if n < 100 {
        seq!['0', '0'] + dec_digits(n)
    } else if n < 1000 {
        seq!['0'] + dec_digits(n)
    } else {
        dec_digits(n)
    }
}

/// A year, zero-padded to four digits, with a leading minus sign for years
/// before year zero.
pub open spec fn year_digits(y: int) -> Seq<char> {
    if y < 0 {
        seq!['-'] + pad4_digits((-y) as nat)
    } else {
        pad4_digits(y as nat)
    }
}

/// What the `date` command prints for a given local time.
pub open spec fn date_display(t: LocalTime) -> Seq<char> {
    year_digits(t.year as int) + "-"@ + pad2_digits(t.month as nat) + "-"@ + pad2_digits(
        t.day as nat,
    ) + " "@ + pad2_digits(t.hour as nat) + ":"@ + pad2_digits(t.minute as nat) + ":"@
        + pad2_digits(t.second as nat)
}

fn pad2(n: u64) -> (s: String)
    ensures
        s@ == pad2_digits(n as nat),
{
    proof {
        reveal_strlit("0");
    }
    let mut s = String::new();
    if n < 10 {
        s.append("0");
    }
    let digits = dec_u64(n);
    s.append(digits.as_str());
    assert(s@ =~= pad2_digits(n as nat));
    s
}

fn pad4(n: u64) -> (s: String)
    ensures
        s@ == pad4_digits(n as nat),
{
    proof {
        reveal_strlit("0");
        reveal_strlit("00");
        reveal_strlit("000");
    }
    let mut s = String::new();
    if n < 10 {
        s.append("000");
    } else if n < 100 {
        s.append("00");
    } else if n < 1000 {
        s.append("0");
    }
    let digits = dec_u64(n);
    s.append(digits.as_str());
    assert(s@ =~= pad4_digits(n as nat));
    s
}

/// Renders a local time as `YYYY-MM-DD HH:MM:SS`.
pub fn date_line(t: &LocalTime) -> (s: String)
    ensures
        s@ == date_display(*t),
{
    proof {
        reveal_strlit("-");
    }
    let mut s = String::new();
    if t.year < 0 {
        s.append("-");
        let mag = (-(t.year as i64)) as u64;
        let y = pad4(mag);
        s.append(y.as_str());
        assert(s@ =~= year_digits(t.year as int));
    } else {
        let y = pad4(t.year as u64);
        s.append(y.as_str());
    }
    s.append("-");
    let part = pad2(t.month as u64);
    s.append(part.as_str());
    s.append("-");
    let part = pad2(t.day as u64);
    s.append(part.as_str());
    s.append(" ");
    let part = pad2(t.hour as u64);
    s.append(part.as_str());
    s.append(":");
    let part = pad2(t.minute as u64);
    s.append(part.as_str());
    s.append(":");
    let part = pad2(t.second as u64);
    s.append(part.as_str());
    assert(s@ =~= date_display(*t));
    s
}

/// Relies on chrono's `Local::now` for the current local time and on the
/// `Datelike`/`Timelike` accessors for its components, whose documented
/// ranges are month 1..=12, day 1..=31, hour 0..=23, minute 0..=59 and
/// second 0..=59. The clock decides the values, so nothing more is
/// promised of them.
#[verifier::external_body]
fn local_now() -> (t: LocalTime)
    ensures
        t.wf(),
{
    let now = chrono::Local::now();
    LocalTime {
        year: now.year(),
        month: now.month(),
        day: now.day(),
        hour: now.hour(),
        minute: now.minute(),
        second: now.second(),
    }
}

/// The line that the `date` command prints: the current local time,
/// rendered as `YYYY-MM-DD HH:MM:SS`.
pub fn date_command() -> (s: String)
    ensures
        exists|t: LocalTime| t.wf() && s@ == date_display(t),
{
    let t = local_now();
    let s = date_line(&t);
    proof {
        assert(t.wf() && s@ == date_display(t));
    }
    s
}

} // verus!
