//! People, evaluation contexts and the three kinds of access rule.

use vstd::prelude::*;
use crate::time::{Instant, TimeOfDay};
use vstd::arithmetic::div_mod::{lemma_fundamental_div_mod, lemma_fundamental_div_mod_converse};

verus! {

/// A registered person.
#[derive(Clone, Debug, PartialEq, Eq)]
pub struct Person {
    pub id: u64,
    pub name: String,
}

/// What a rule is checked against: who is asking, and when.
#[derive(Clone, Debug)]
pub struct Env {
    pub person: Person,
    pub date: Instant,
}

impl Env {
    /// A context for `person` at the current local time.
    pub fn current(person: Person) -> (r: Env)
        ensures
            r.person == person,
            r.date.wf(),
    {
        Env { person, date: crate::time::local_now() }
    }
}

/// Grants its owner presence between two instants, both included.
#[derive(Clone, Copy, Debug, PartialEq, Eq, Structural)]
pub struct DateTimeRange {
    pub id: u64,
    pub start: Instant,
    pub end: Instant,
}

impl DateTimeRange {
    pub open spec fn satisfied_by(&self, env: Env) -> bool {
        &&& env.person.id == self.id
        &&& self.start.not_after(env.date)
        &&& env.date.not_after(self.end)
    }

    pub fn is_satisfied(&self, env: &Env) -> (r: bool)
        ensures
            r == self.satisfied_by(*env),
    {
        env.person.id == self.id && self.start.is_not_after(&env.date) && env.date.is_not_after(
            &self.end,
        )
    }
}

/// One weekly window: an ISO day of the week (Monday is 1, Sunday is 7) and
/// a span of that day, both ends included.
#[derive(Clone, Copy, Debug, PartialEq, Eq, Structural)]
pub struct TimeRange {
    pub day: u32,
    pub start: TimeOfDay,
    pub end: TimeOfDay,
}

impl TimeRange {
    /// The window covers time `t` of weekday `day`.
    pub open spec fn covers(&self, day: int, t: TimeOfDay) -> bool {
        &&& self.day == day
        &&& self.start.not_after(t)
        &&& t.not_after(self.end)
    }

    pub fn is_covering(&self, day: u32, t: &TimeOfDay) -> (r: bool)
        ensures
            r == self.covers(day as int, *t),
    {
        self.day == day && self.start.is_not_after(t) && t.is_not_after(&self.end)
    }
}

/// Grants its owner presence during any of its weekly windows.
#[derive(Clone, Debug)]
pub struct DayOfWeek {
    pub id: u64,
    pub days: Vec<TimeRange>,
}

impl DayOfWeek {
    /// Some window covers the local weekday and time of day of `i`.
    pub open spec fn some_window_covers(&self, i: Instant) -> bool {
        exists|k: int|
            0 <= k < self.days@.len() && #[trigger] self.days@[k].covers(
                i.weekday_spec(),
                i.time_of_day_spec(),
            )
    }

    pub open spec fn satisfied_by(&self, env: Env) -> bool {
        env.person.id == self.id && self.some_window_covers(env.date)
    }

    pub fn is_satisfied(&self, env: &Env) -> (r: bool)
        ensures
            r == self.satisfied_by(*env),
    {
        if env.person.id != self.id {
            return false;
        }
        let day = env.date.weekday();
        let t = env.date.time_of_day();
        let mut k: usize = 0;
        while k < self.days.len()
            invariant
                k <= self.days@.len(),
                env.person.id == self.id,
                day == env.date.weekday_spec(),
                t == env.date.time_of_day_spec(),
                forall|j: int| 0 <= j < k ==> !#[trigger] self.days@[j].covers(day as int, t),
            decreases self.days@.len() - k,
        {
            if self.days[k].is_covering(day, &t) {
                assert(self.days@[k as int].covers(
                    env.date.weekday_spec(),
                    env.date.time_of_day_spec(),
                ));

                return true;
            }
            k = k + 1;
        }
        false
    }
}

/// Grants its owner presence at any time.
#[derive(Clone, Copy, Debug, PartialEq, Eq, Structural)]
pub struct MemberOfSuite {
    pub id: u64,
}

impl MemberOfSuite {
    pub open spec fn satisfied_by(&self, env: Env) -> bool {
        env.person.id == self.id
    }

    pub fn is_satisfied(&self, env: &Env) -> (r: bool)
        ensures
            r == self.satisfied_by(*env),
    {
        self.id == env.person.id
    }
}

/// An access rule of one of the three kinds.
#[derive(Clone, Debug)]
pub enum RuleObj {
    DTR(DateTimeRange),
    DOW(DayOfWeek),
    MOS(MemberOfSuite),
}

impl RuleObj {
    /// The id of the person the rule is for.
    pub open spec fn owner(&self) -> u64 {
        match self {
            RuleObj::DTR(r) => r.id,
            RuleObj::DOW(r) => r.id,
            RuleObj::MOS(r) => r.id,
        }
    }

    pub open spec fn satisfied_by(&self, env: Env) -> bool {
        match self {
            RuleObj::DTR(r) => r.satisfied_by(env),
            RuleObj::DOW(r) => r.satisfied_by(env),
            RuleObj::MOS(r) => r.satisfied_by(env),
        }
    }

    pub fn is_satisfied(&self, env: &Env) -> (r: bool)
        ensures
            r == self.satisfied_by(*env),
    {
        match self {
            RuleObj::DTR(rule) => rule.is_satisfied(env),
            RuleObj::DOW(rule) => rule.is_satisfied(env),
            RuleObj::MOS(rule) => rule.is_satisfied(env),
        }
    }
}

/// A rule is never satisfied for anyone but its owner, at any instant.
pub proof fn lemma_only_owner_satisfies(r: RuleObj, env: Env)
    requires
        r.owner() != env.person.id,
    ensures
        !r.satisfied_by(env),
{
}

/// Both ends of a date-time range are included, and nothing strictly before
/// its start or strictly after its end is.
pub proof fn lemma_range_ends_inclusive(r: DateTimeRange, env: Env)
    requires
        r.start.not_after(r.end),
    ensures
        env.person.id == r.id && (env.date.same_moment(r.start) || env.date.same_moment(r.end))
            ==> r.satisfied_by(env),
        !r.start.not_after(env.date) ==> !r.satisfied_by(env),
        !env.date.not_after(r.end) ==> !r.satisfied_by(env),
{
}

/// A day-of-week rule recurs weekly: moving the instant by a whole number
/// of weeks does not change whether it is satisfied.
pub proof fn lemma_weekly_recurrence(r: DayOfWeek, env: Env, weeks: int)
    requires
        i64::MIN <= env.date.secs + weeks * 604800 <= i64::MAX,
    ensures
        r.satisfied_by(env) == r.satisfied_by(
            (Env {
                person: env.person,
                date: (Instant { secs: (env.date.secs + weeks * 604800) as i64, ..env.date }),
            }),
        ),
{
    let later = Instant { secs: (env.date.secs + weeks * 604800) as i64, ..env.date };
    let x = env.date.local_secs();
    let d = 86400int;
    assert(later.local_secs() == x + d * (7 * weeks));
    lemma_fundamental_div_mod(x, d);
    lemma_fundamental_div_mod_converse(later.local_secs(), d, x / d + 7 * weeks, x % d);
    lemma_fundamental_div_mod(x / d + 3, 7);
    lemma_fundamental_div_mod_converse(
        later.local_day() + 3,
        7,
        (x / d + 3) / 7 + weeks,
        (x / d + 3) % 7,
    );
    assert(later.weekday_spec() == env.date.weekday_spec());
    assert(later.time_of_day_spec() == env.date.time_of_day_spec());
}

} // verus!
