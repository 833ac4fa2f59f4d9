use presence::rules::{DateTimeRange, DayOfWeek, Env, MemberOfSuite, Person, RuleObj, TimeRange};
use presence::store::{AccessError, Db};
use presence::summary::rules_list;
use presence::time::{Instant, TimeOfDay};

// 2024-01-01T00:00:00Z, a Monday.
const NEW_YEAR_2024: i64 = 1704067200;

fn person(id: u64, name: &str) -> Person {
    Person { id, name: name.to_string() }
}

fn utc(secs: i64) -> Instant {
    Instant::new(secs, 0, 0).unwrap()
}

fn env_at(id: u64, date: Instant) -> Env {
    Env { person: person(id, "Max"), date }
}

fn hms(h: u32, m: u32, s: u32) -> TimeOfDay {
    TimeOfDay::from_hms(h, m, s).unwrap()
}

fn monday_nine_to_five(owner: u64) -> DayOfWeek {
    DayOfWeek { id: owner, days: vec![TimeRange { day: 1, start: hms(9, 0, 0), end: hms(17, 0, 0) }] }
}

#[test]
fn date_between() {
    let now = Env::current(person(5, "Max")).date;
    let in_5_minutes = Instant::new(now.secs + 300, now.nanos, now.offset).unwrap();
    let in_3_minutes = Instant::new(now.secs + 180, now.nanos, now.offset).unwrap();
    let three_mins_ago = Instant::new(now.secs - 180, now.nanos, now.offset).unwrap();

    let rule = DateTimeRange { id: 5, start: now, end: in_5_minutes };

    let max = Person { id: 5, name: "Max".to_string() };
    let env = Env { person: max.clone(), date: in_3_minutes };
    let badenv = Env { person: max.clone(), date: three_mins_ago };

    assert!(rule.is_satisfied(&env));
    assert!(!rule.is_satisfied(&badenv));
}

#[test]
fn current_env_reads_the_clock() {
    let env = Env::current(person(3, "Ann"));
    assert_eq!(env.person.id, 3);
    assert!(env.date.secs > 1_600_000_000);
    assert!(env.date.nanos < 1_000_000_000);
    assert!(env.date.offset > -86400 && env.date.offset < 86400);
}

#[test]
fn range_example_instants() {
    let rule = DateTimeRange { id: 5, start: utc(NEW_YEAR_2024), end: utc(NEW_YEAR_2024 + 300) };
    assert!(rule.is_satisfied(&env_at(5, utc(NEW_YEAR_2024 + 180))));
    assert!(!rule.is_satisfied(&env_at(5, utc(NEW_YEAR_2024 + 360))));
    assert!(!rule.is_satisfied(&env_at(6, utc(NEW_YEAR_2024 + 180))));
    assert!(!rule.is_satisfied(&env_at(6, utc(NEW_YEAR_2024 + 360))));
}

#[test]
fn range_ends_are_inclusive() {
    let rule = DateTimeRange { id: 5, start: utc(NEW_YEAR_2024), end: utc(NEW_YEAR_2024 + 300) };
    assert!(rule.is_satisfied(&env_at(5, utc(NEW_YEAR_2024))));
    assert!(rule.is_satisfied(&env_at(5, utc(NEW_YEAR_2024 + 300))));
    let just_before = Instant::new(NEW_YEAR_2024 - 1, 999_999_999, 0).unwrap();
    let just_after = Instant::new(NEW_YEAR_2024 + 300, 1, 0).unwrap();
    assert!(!rule.is_satisfied(&env_at(5, just_before)));
    assert!(!rule.is_satisfied(&env_at(5, just_after)));
}

#[test]
fn range_compares_moments_not_offsets() {
    let rule = DateTimeRange { id: 5, start: utc(NEW_YEAR_2024), end: utc(NEW_YEAR_2024 + 300) };
    let same_moment_in_paris = Instant::new(NEW_YEAR_2024 + 60, 0, 3600).unwrap();
    assert!(rule.is_satisfied(&env_at(5, same_moment_in_paris)));
}

#[test]
fn inverted_range_never_satisfied() {
    let rule = DateTimeRange { id: 5, start: utc(NEW_YEAR_2024 + 300), end: utc(NEW_YEAR_2024) };
    assert!(!rule.is_satisfied(&env_at(5, utc(NEW_YEAR_2024 + 150))));
    assert!(!rule.is_satisfied(&env_at(5, utc(NEW_YEAR_2024))));
}

#[test]
fn weekday_window_recurs_every_monday() {
    let rule = monday_nine_to_five(5);
    let noon = NEW_YEAR_2024 + 12 * 3600;
    assert!(rule.is_satisfied(&env_at(5, utc(noon))));
    assert!(rule.is_satisfied(&env_at(5, utc(noon + 7 * 86400))));
    assert!(rule.is_satisfied(&env_at(5, utc(noon - 52 * 7 * 86400))));
    assert!(!rule.is_satisfied(&env_at(5, utc(noon + 86400))));
    assert!(!rule.is_satisfied(&env_at(6, utc(noon))));
}

#[test]
fn weekday_window_edges_and_local_time() {
    let rule = monday_nine_to_five(5);
    assert!(rule.is_satisfied(&env_at(5, utc(NEW_YEAR_2024 + 9 * 3600))));
    assert!(rule.is_satisfied(&env_at(5, utc(NEW_YEAR_2024 + 17 * 3600))));
    assert!(!rule.is_satisfied(&env_at(5, Instant::new(NEW_YEAR_2024 + 17 * 3600, 1, 0).unwrap())));
    assert!(!rule.is_satisfied(&env_at(5, utc(NEW_YEAR_2024 + 9 * 3600 - 1))));
    // 08:30 UTC is 10:30 at UTC+2.
    let morning_east = Instant::new(NEW_YEAR_2024 + 8 * 3600 + 1800, 0, 7200).unwrap();
    assert!(rule.is_satisfied(&env_at(5, morning_east)));
    // Monday 02:00 UTC is still Sunday at UTC-5.
    let sunday_west = Instant::new(NEW_YEAR_2024 + 2 * 3600, 0, -5 * 3600).unwrap();
    assert_eq!(sunday_west.weekday(), 7);
}

#[test]
fn weekday_any_window() {
    let rule = DayOfWeek {
        id: 5,
        days: vec![
            TimeRange { day: 2, start: hms(8, 0, 0), end: hms(9, 0, 0) },
            TimeRange { day: 1, start: hms(20, 0, 0), end: hms(21, 0, 0) },
        ],
    };
    assert!(rule.is_satisfied(&env_at(5, utc(NEW_YEAR_2024 + 20 * 3600 + 60))));
    assert!(rule.is_satisfied(&env_at(5, utc(NEW_YEAR_2024 + 86400 + 8 * 3600))));
    assert!(!rule.is_satisfied(&env_at(5, utc(NEW_YEAR_2024 + 12 * 3600))));
    let empty = DayOfWeek { id: 5, days: vec![] };
    assert!(!empty.is_satisfied(&env_at(5, utc(NEW_YEAR_2024))));
}

#[test]
fn member_of_suite_ignores_time() {
    let rule = MemberOfSuite { id: 5 };
    assert!(rule.is_satisfied(&env_at(5, utc(0))));
    assert!(rule.is_satisfied(&env_at(5, utc(NEW_YEAR_2024))));
    assert!(!rule.is_satisfied(&env_at(4, utc(NEW_YEAR_2024))));
}

#[test]
fn rules_of_other_owners_never_match() {
    let rules = vec![
        RuleObj::DTR(DateTimeRange { id: 1, start: utc(0), end: utc(i64::MAX) }),
        RuleObj::DOW(DayOfWeek {
            id: 1,
            days: vec![TimeRange { day: 1, start: hms(0, 0, 0), end: hms(23, 59, 59) }],
        }),
        RuleObj::MOS(MemberOfSuite { id: 1 }),
    ];
    for r in &rules {
        assert!(!r.is_satisfied(&env_at(2, utc(NEW_YEAR_2024))));
        assert!(r.is_satisfied(&env_at(1, utc(NEW_YEAR_2024))));
    }
}

#[test]
fn document_without_rules_grants_nothing() {
    let mut db = Db::new();
    db.add_person(person(5, "Max"));
    assert!(!db.is_satisfied(&env_at(5, utc(NEW_YEAR_2024))));
}

#[test]
fn one_satisfied_rule_grants() {
    let mut db = Db::new();
    db.rules.push(RuleObj::DOW(monday_nine_to_five(5)));
    db.rules.push(RuleObj::MOS(MemberOfSuite { id: 7 }));
    let env = env_at(5, utc(NEW_YEAR_2024 + 86400));
    assert!(!db.is_satisfied(&env));
    db.rules.insert(1, RuleObj::MOS(MemberOfSuite { id: 5 }));
    assert!(db.is_satisfied(&env));
}

#[test]
fn register_then_exists() {
    let mut db = Db::new();
    assert!(!db.person_exists(5));
    assert_eq!(db.register_person(person(5, "Max")), Ok(()));
    assert!(db.person_exists(5));
    assert_eq!(db.person_by_id(5).unwrap().name, "Max");
    assert!(db.person_by_id(6).is_none());
}

#[test]
fn register_twice_is_rejected() {
    let mut db = Db::new();
    assert_eq!(db.register_person(person(5, "Max")), Ok(()));
    assert_eq!(db.register_person(person(5, "Other")), Err(AccessError::DuplicatePerson));
    assert_eq!(db.people.len(), 1);
    assert_eq!(db.people[0].name, "Max");
}

#[test]
fn add_person_twice_keeps_both() {
    let mut db = Db::new();
    db.add_person(person(5, "Max"));
    db.add_person(person(5, "Other"));
    assert_eq!(db.people.len(), 2);
    assert_eq!(db.person_by_id(5).unwrap().name, "Max");
}

#[test]
fn deregister_then_absent() {
    let mut db = Db::new();
    db.add_person(person(5, "Max"));
    db.add_person(person(6, "Ann"));
    db.add_person(person(5, "Other"));
    db.rules.push(RuleObj::MOS(MemberOfSuite { id: 5 }));
    let removed = db.deregister_person(5).unwrap();
    assert_eq!(removed, person(5, "Max"));
    assert!(!db.person_exists(5));
    assert_eq!(db.people, vec![person(6, "Ann")]);
    assert_eq!(db.rules.len(), 1);
}

#[test]
fn deregister_absent_reports_not_found() {
    let mut db = Db::new();
    db.add_person(person(6, "Ann"));
    assert_eq!(db.deregister_person(5), Err(AccessError::PersonNotFound));
    assert_eq!(db.people, vec![person(6, "Ann")]);
}

#[test]
fn kill_removes_every_match() {
    let mut db = Db::new();
    for (id, name) in [(1, "a"), (2, "b"), (1, "c"), (3, "d"), (1, "e")] {
        db.add_person(person(id, name));
    }
    db.kill_person_by_id(1);
    assert_eq!(db.people, vec![person(2, "b"), person(3, "d")]);
    db.kill_person_by_id(9);
    assert_eq!(db.people.len(), 2);
}

#[test]
fn evaluate_access_by_id() {
    let mut db = Db::new();
    db.add_person(person(5, "Max"));
    db.rules.push(RuleObj::DOW(monday_nine_to_five(5)));
    let noon = utc(NEW_YEAR_2024 + 12 * 3600);
    let night = utc(NEW_YEAR_2024 + 23 * 3600);
    assert_eq!(db.evaluate_access(5, Some(noon)), Ok(true));
    assert_eq!(db.evaluate_access(5, Some(night)), Ok(false));
    assert_eq!(db.evaluate_access(6, Some(noon)), Err(AccessError::PersonNotFound));
    assert!(db.evaluate_access(5, None).is_ok());
    db.rules.push(RuleObj::MOS(MemberOfSuite { id: 5 }));
    assert_eq!(db.evaluate_access(5, None), Ok(true));
}

#[test]
fn weekday_and_time_of_day() {
    assert_eq!(utc(0).weekday(), 4);
    assert_eq!(utc(NEW_YEAR_2024).weekday(), 1);
    assert_eq!(utc(-1).weekday(), 3);
    assert_eq!(utc(-1).time_of_day(), TimeOfDay::new(86399, 0).unwrap());
    assert_eq!(utc(-86400 * 3).local_day_number(), -3);
    let t = Instant::new(NEW_YEAR_2024 + 3723, 5, 0).unwrap().time_of_day();
    assert_eq!((t.hour(), t.minute(), t.secs, t.nanos), (1, 2, 3723, 5));
}

#[test]
fn constructors_refuse_out_of_range_parts() {
    assert!(Instant::new(0, 1_000_000_000, 0).is_none());
    assert!(Instant::new(0, 0, 86400).is_none());
    assert!(Instant::new(0, 0, -86400).is_none());
    assert!(Instant::new(i64::MIN, 999_999_999, -86399).is_some());
    assert!(TimeOfDay::from_hms(24, 0, 0).is_none());
    assert!(TimeOfDay::from_hms(0, 60, 0).is_none());
    assert!(TimeOfDay::from_hms(0, 0, 60).is_none());
    assert_eq!(hms(17, 0, 0).secs, 61200);
    assert!(TimeOfDay::new(86400, 0).is_none());
    assert!(TimeOfDay::new(0, 1_000_000_000).is_none());
}

#[test]
fn summaries_per_kind() {
    assert_eq!(RuleObj::DOW(monday_nine_to_five(5)).summary(), "5 on Mon from 09:00 to 17:00");
    assert_eq!(RuleObj::MOS(MemberOfSuite { id: 12 }).summary(), "12 lives here");
    let dtr = DateTimeRange { id: 5, start: utc(NEW_YEAR_2024), end: utc(NEW_YEAR_2024 + 300) };
    assert_eq!(RuleObj::DTR(dtr).summary(), "5 from 1/1 @ 00:00 to 1/1 @ 00:05");
    let two = DayOfWeek {
        id: 40,
        days: vec![
            TimeRange { day: 7, start: hms(0, 5, 0), end: hms(23, 59, 59) },
            TimeRange { day: 3, start: hms(10, 30, 0), end: hms(11, 0, 0) },
        ],
    };
    assert_eq!(two.summary(), "40 on Sun from 00:05 to 23:59, Wed from 10:30 to 11:00");
}

#[test]
fn summary_dates_follow_the_calendar() {
    // 2005-09-10 is day 13036 of the epoch; 20:15 local time at UTC+3.
    let i = Instant::new(13036 * 86400 + 17 * 3600 + 15 * 60, 0, 3 * 3600).unwrap();
    assert_eq!(i.moment_summary(), "9/10 @ 20:15");
    // Past local midnight the date moves on.
    let late = Instant::new(13036 * 86400 + 23 * 3600, 0, 2 * 3600).unwrap();
    assert_eq!(late.moment_summary(), "9/11 @ 01:00");
    assert_eq!(utc(i64::MAX).moment_summary(), "?/? @ 15:30");
}

#[test]
fn rules_list_one_line_each() {
    let rules = vec![RuleObj::MOS(MemberOfSuite { id: 1 }), RuleObj::DOW(monday_nine_to_five(2))];
    assert_eq!(rules_list(&rules), "Rules:\n1 lives here\n2 on Mon from 09:00 to 17:00\n");
    assert_eq!(rules_list(&vec![]), "Rules:\n");
}
