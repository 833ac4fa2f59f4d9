//! One-line, human-readable summaries of rules, e.g. `5 on Mon from 09:00 to 17:00`.

use vstd::prelude::*;
use chrono::Datelike;
use crate::rules::{DateTimeRange, DayOfWeek, MemberOfSuite, RuleObj, TimeRange};
use crate::time::{Instant, TimeOfDay};

verus! {

/// The text of a single decimal digit `n`.
pub open spec fn digit_text(n: nat) -> Seq<char> {
    if n == 0 {
        "0"@
    } else if n == 1 {
        "1"@
    } else if n == 2 {
        "2"@
    } else if n == 3 {
        "3"@
    } else if n == 4 {
        "4"@
    } else if n == 5 {
        "5"@
    } else if n == 6 {
        "6"@
    } else if n == 7 {
        "7"@
    } else if n == 8 {
        "8"@
    } else {
        "9"@
    }
}

/// `n` in decimal, without leading zeros.
pub open spec fn decimal(n: nat) -> Seq<char>
    decreases n,
{
    if n < 10 {
        digit_text(n)
    } else {
        decimal(n / 10) + digit_text(n % 10)
    }
}

/// `n` in decimal, with a leading zero below ten.
pub open spec fn padded(n: nat) -> Seq<char> {
    if n < 10 {
        "0"@ + decimal(n)
    } else {
        decimal(n)
    }
}

/// `HH:MM` of a time of day.
pub open spec fn clock_text(t: TimeOfDay) -> Seq<char> {
    padded((t.secs / 3600) as nat) + ":"@ + padded(((t.secs % 3600) / 60) as nat)
}

/// The calendar (month, day) of the day `epoch_day` days after 1970-01-01,
/// or `None` outside the calendar's range.
pub uninterp spec fn calendar_date(epoch_day: int) -> Option<(u32, u32)>;

/// The calendar (month, day) of an instant in its local time.
pub open spec fn local_date(i: Instant) -> Option<(u32, u32)> {
    if i32::MIN <= i.local_day() <= i32::MAX {
        calendar_date(i.local_day())
    } else {
        None
    }
}

/// `M/D` of a calendar date, or `?/?` when there is none.
pub open spec fn date_text(date: Option<(u32, u32)>) -> Seq<char> {
    match date {
        Some((m, d)) => decimal(m as nat) + "/"@ + decimal(d as nat),
        None => "?/?"@,
    }
}

/// `M/D @ HH:MM` of an instant in its local time.
pub open spec fn moment_text(i: Instant) -> Seq<char> {
    date_text(local_date(i)) + " @ "@ + clock_text(i.time_of_day_spec())
}

/// The short English name of an ISO weekday, `?` for any other number.
pub open spec fn day_name(day: u32) -> Seq<char> {
    if day == 1 {
        "Mon"@
    } else if day == 2 {
        "Tue"@
    } else if day == 3 {
        "Wed"@
    } else if day == 4 {
        "Thu"@
    } else if day == 5 {
        "Fri"@
    } else if day == 6 {
        "Sat"@
    } else if day == 7 {
        "Sun"@
    } else {
        "?"@
    }
}

/// `Day from HH:MM to HH:MM` of a weekly window.
pub open spec fn window_text(w: TimeRange) -> Seq<char> {
    day_name(w.day) + " from "@ + clock_text(w.start) + " to "@ + clock_text(w.end)
}

/// The windows' texts in order, separated by `, `.
pub open spec fn windows_text(ws: Seq<TimeRange>) -> Seq<char>
    decreases ws.len(),
{
    if ws.len() == 0 {
        Seq::empty()
    } else if ws.len() == 1 {
        window_text(ws[0])
    } else {
        windows_text(ws.drop_last()) + ", "@ + window_text(ws.last())
    }
}

/// The summary of a rule.
pub open spec fn rule_text(r: RuleObj) -> Seq<char> {
    match r {
        RuleObj::DTR(d) => decimal(d.id as nat) + " from "@ + moment_text(d.start) + " to "@
            + moment_text(d.end),
        RuleObj::DOW(d) => decimal(d.id as nat) + " on "@ + windows_text(d.days@),
        RuleObj::MOS(m) => decimal(m.id as nat) + " lives here"@,
    }
}

/// Each rule's summary followed by a line break.
pub open spec fn rule_lines(rules: Seq<RuleObj>) -> Seq<char>
    decreases rules.len(),
{
    if rules.len() == 0 {
        Seq::empty()
    } else {
        rule_lines(rules.drop_last()) + rule_text(rules.last()) + "\n"@
    }
}

/// Relies on chrono's `NaiveDate::from_epoch_days` (day 0 is 1970-01-01;
/// `None` out of range) with `Datelike::month` (1 to 12) and
/// `Datelike::day` (1 to 31).
#[verifier::external_body]
fn month_and_day(epoch_day: i32) -> (r: Option<(u32, u32)>)
    ensures
        r == calendar_date(epoch_day as int),
        r matches Some((m, d)) ==> 1 <= m <= 12 && 1 <= d <= 31,
{
    match chrono::NaiveDate::from_epoch_days(epoch_day) {
        Some(date) => Some((date.month(), date.day())),
        None => None,
    }
}

fn push_digit(s: &mut String, n: u64)
    requires
        n < 10,
    ensures
        final(s)@ == old(s)@ + digit_text(n as nat),
{
    let text = if n == 0 {
        "0"
    } else if n == 1 {
        "1"
    } else if n == 2 {
        "2"
    } else if n == 3 {
        "3"
    } else if n == 4 {
        "4"
    } else if n == 5 {
        "5"
    } else if n == 6 {
        "6"
    } else if n == 7 {
        "7"
    } else if n == 8 {
        "8"
    } else {
        "9"
    };
    s.append(text);
}

fn push_decimal(s: &mut String, n: u64)
    ensures
        final(s)@ == old(s)@ + decimal(n as nat),
    decreases n,
{
    if n < 10 {
        push_digit(s, n);
    } else {
        push_decimal(s, n / 10);
        push_digit(s, n % 10);
        assert(final(s)@ =~= old(s)@ + decimal(n as nat));
    }
}

fn push_padded(s: &mut String, n: u32)
    ensures
        final(s)@ == old(s)@ + padded(n as nat),
{
    if n < 10 {
        s.append("0");
    }
    push_decimal(s, n as u64);
    assert(final(s)@ =~= old(s)@ + padded(n as nat));
}

fn push_clock(s: &mut String, t: &TimeOfDay)
    ensures
        final(s)@ == old(s)@ + clock_text(*t),
{
    push_padded(s, t.secs / 3600);
    s.append(":");
    push_padded(s, (t.secs % 3600) / 60);
    assert(final(s)@ =~= old(s)@ + clock_text(*t));
}

impl Instant {
    /// `M/D @ HH:MM` in local time; `?/?` stands for a date out of the
    /// calendar's range.
    pub fn moment_summary(&self) -> (r: String)
        ensures
            r@ == moment_text(*self),
    {
        let mut s = String::new();
        let day = self.local_day_number();
        let date = if -2147483648 <= day && day <= 2147483647 {
            month_and_day(day as i32)
        } else {
            None
        };
        match date {
            Some((m, d)) => {
                push_decimal(&mut s, m as u64);
                s.append("/");
                push_decimal(&mut s, d as u64);
            },
            None => {
                s.append("?/?");
            },
        }
        s.append(" @ ");
        push_clock(&mut s, &self.time_of_day());
        assert(s@ =~= moment_text(*self));
        s
    }
}

impl DateTimeRange {
    /// `ID from M/D @ HH:MM to M/D @ HH:MM`.
    pub fn summary(&self) -> (r: String)
        ensures
            r@ == rule_text(RuleObj::DTR(*self)),
    {
        let mut s = String::new();
        push_decimal(&mut s, self.id);
        s.append(" from ");
        let start = self.start.moment_summary();
        s.append(start.as_str());
        s.append(" to ");
        let end = self.end.moment_summary();
        s.append(end.as_str());
        assert(s@ =~= rule_text(RuleObj::DTR(*self)));
        s
    }
}

impl TimeRange {
    /// `Day from HH:MM to HH:MM`.
    pub fn summary(&self) -> (r: String)
        ensures
            r@ == window_text(*self),
    {
        let mut s = String::new();
        let name = if self.day == 1 {
            "Mon"
        } else if self.day == 2 {
            "Tue"
        } else if self.day == 3 {
            "Wed"
        } else if self.day == 4 {
            "Thu"
        } else if self.day == 5 {
            "Fri"
        } else if self.day == 6 {
            "Sat"
        } else if self.day == 7 {
            "Sun"
        } else {
            "?"
        };
        s.append(name);
        s.append(" from ");
        push_clock(&mut s, &self.start);
        s.append(" to ");
        push_clock(&mut s, &self.end);
        assert(s@ =~= window_text(*self));
        s
    }
}

impl DayOfWeek {
    /// `ID on ` followed by the windows, separated by `, `.
    pub fn summary(&self) -> (r: String)
        ensures
            r@ == rule_text(RuleObj::DOW(*self)),
    {
        let mut s = String::new();
        push_decimal(&mut s, self.id);
        s.append(" on ");
        let ghost head = s@;
        let mut k: usize = 0;
        while k < self.days.len()
            invariant
                k <= self.days@.len(),
                s@ == head + windows_text(self.days@.take(k as int)),
            decreases self.days@.len() - k,
        {
            if k > 0 {
                s.append(", ");
            }
            let w = self.days[k].summary();
            s.append(w.as_str());
            proof {
                let ws = self.days@.take(k + 1);
                assert(ws.drop_last() =~= self.days@.take(k as int));
                assert(ws.last() == self.days@[k as int]);
                if k == 0 {
                    assert(windows_text(self.days@.take(0)) =~= Seq::<char>::empty());
                }
                assert(s@ =~= head + windows_text(ws));
            }
            k = k + 1;
        }
        assert(self.days@.take(k as int) =~= self.days@);
        assert(s@ =~= rule_text(RuleObj::DOW(*self)));
        s
    }
}

impl MemberOfSuite {
    /// `ID lives here`.
    pub fn summary(&self) -> (r: String)
        ensures
            r@ == rule_text(RuleObj::MOS(*self)),
    {
        let mut s = String::new();
        push_decimal(&mut s, self.id);
        s.append(" lives here");
        s
    }
}

impl RuleObj {
    /// A one-line, human-readable summary of the rule.
    pub fn summary(&self) -> (r: String)
        ensures
            r@ == rule_text(*self),
    {
        match self {
            RuleObj::DTR(rule) => rule.summary(),
            RuleObj::DOW(rule) => rule.summary(),
            RuleObj::MOS(rule) => rule.summary(),
        }
    }
}

/// `Rules:` on a line of its own, then each rule's summary on its own line.
pub fn rules_list(rules: &Vec<RuleObj>) -> (r: String)
    ensures
        r@ == "Rules:\n"@ + rule_lines(rules@),
{
    let mut s = String::new();
    s.append("Rules:\n");
    let ghost head = s@;
    let mut k: usize = 0;
    while k < rules.len()
        invariant
            k <= rules@.len(),
            head == "Rules:\n"@,
            s@ == head + rule_lines(rules@.take(k as int)),
        decreases rules@.len() - k,
    {
        let line = rules[k].summary();
        s.append(line.as_str());
        s.append("\n");
        proof {
            let rs = rules@.take(k + 1);
            assert(rs.drop_last() =~= rules@.take(k as int));
            assert(s@ =~= head + rule_lines(rs));
        }
        k = k + 1;
    }
    assert(rules@.take(k as int) =~= rules@);
    s
}

} // verus!
