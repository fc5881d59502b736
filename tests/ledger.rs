use workhours::{
    clamp_digit, format_duration, format_todo, Day, Duration, HistoryBuffer, RangeError, Span,
    State, TimePoint, DURATION_FORMAT,
};

const DAY: i32 = 2_460_000;

fn at(hour: u8, minute: u8) -> TimePoint {
    TimePoint::new(DAY, hour, minute, 0, 0, 0).unwrap()
}

fn interval(h1: u8, m1: u8, h2: u8, m2: u8) -> Duration {
    let mut d = Duration::new(at(h1, m1));
    d.set_end(at(h2, m2));
    d
}

fn hm(hours: i64, minutes: i64) -> Span {
    Span::hours(hours).checked_plus(Span::minutes(minutes)).unwrap()
}

fn monday() -> Day {
    let mut day = Day::new("Monday".to_string()).with_target(hm(7, 36));
    day.durations.push(interval(9, 0, 12, 0));
    day.durations.push(interval(13, 0, 17, 0));
    day
}

#[test]
fn monday_scenario_duration_and_todo() {
    let day = monday();
    assert_eq!(day.duration(), Some(hm(7, 0)));
    assert_eq!(day.todo(), Some(Span::minutes(36)));
    assert_eq!(day.target(), hm(7, 36));
}

#[test]
fn monday_scenario_disabled() {
    let mut day = monday();
    day.set_enabled(false);
    assert_eq!(day.duration(), Some(Span::zero()));
    assert_eq!(day.target(), Span::zero());
    let state = State { days: vec![day] };
    assert_eq!(state.total_duration(), Some(Span::zero()));
    assert_eq!(state.total_target(), Some(Span::zero()));
}

#[test]
fn start_past_end_snaps_end() {
    let mut d = interval(10, 0, 11, 0);
    d.set_start(at(11, 30));
    assert_eq!(d.start(), at(11, 30));
    assert_eq!(d.end(), at(11, 30));
    assert_eq!(d.duration(), Span::zero());
}

#[test]
fn end_before_start_snaps_start() {
    let mut d = interval(10, 0, 11, 0);
    d.set_end(at(9, 15));
    assert_eq!(d.start(), at(9, 15));
    assert_eq!(d.end(), at(9, 15));
    assert_eq!(d.duration(), Span::zero());
}

#[test]
fn edits_keep_end_after_start() {
    let mut d = Duration::new(at(8, 0));
    let moves = [(true, 9, 0), (false, 12, 30), (true, 13, 0), (false, 7, 45), (true, 6, 0), (false, 6, 30)];
    for (is_start, h, m) in moves {
        if is_start {
            d.set_start(at(h, m));
        } else {
            d.set_end(at(h, m));
        }
        assert!(!d.duration().is_negative());
        assert!(!d.end().elapsed_since(&d.start()).is_negative());
    }
    assert_eq!(d.start(), at(6, 0));
    assert_eq!(d.end(), at(6, 30));
}

#[test]
fn unchanged_end_when_start_moves_earlier() {
    let mut d = interval(10, 0, 11, 0);
    d.set_start(at(9, 0));
    assert_eq!(d.end(), at(11, 0));
    assert_eq!(d.duration(), Span::hours(2));
}

#[test]
fn disabled_day_works_nothing() {
    let mut day = monday();
    day.enabled = false;
    assert_eq!(day.duration(), Some(Span::zero()));
    assert_eq!(day.todo(), Some(hm(7, 36)));
}

#[test]
fn reordered_intervals_same_duration() {
    let mut a = Day::new("Tuesday".to_string());
    a.durations.push(interval(8, 0, 9, 30));
    a.durations.push(interval(10, 0, 10, 5));
    a.durations.push(interval(14, 0, 18, 0));
    let mut b = Day::new("Tuesday".to_string());
    b.durations.push(interval(14, 0, 18, 0));
    b.durations.push(interval(8, 0, 9, 30));
    b.durations.push(interval(10, 0, 10, 5));
    assert_eq!(a.duration(), b.duration());
    assert_eq!(a.duration(), Some(hm(5, 35)));
}

#[test]
fn week_total_is_sum_of_days() {
    let mut state = State::default();
    state.days[0].durations.push(interval(9, 0, 12, 0));
    state.days[2].durations.push(interval(8, 0, 16, 30));
    state.days[4].durations.push(interval(7, 0, 7, 20));
    let sum = state.days.iter().fold(Span::zero(), |acc, d| acc.checked_plus(d.duration().unwrap()).unwrap());
    assert_eq!(state.total_duration(), Some(sum));
    assert_eq!(sum, hm(11, 50));
    assert_eq!(state.total_target(), Some(hm(38, 0)));
    assert_eq!(state.todo(), Some(hm(26, 10)));
}

#[test]
fn disabling_day_lowers_week_total() {
    let mut state = State::default();
    state.days[0].durations.push(interval(9, 0, 12, 0));
    state.days[2].durations.push(interval(8, 0, 16, 30));
    let before = state.total_duration().unwrap();
    let day_time = state.days[2].duration().unwrap();
    assert!(state.set_day_enabled(2, false));
    let after = state.total_duration().unwrap();
    assert_eq!(after.checked_plus(day_time), Some(before));
    assert_eq!(state.total_target(), Some(hm(30, 24)));
    assert!(!state.set_day_enabled(5, false));
}

#[test]
fn surplus_gives_negative_todo() {
    let mut day = Day::new("Friday".to_string()).with_target(hm(1, 0));
    day.durations.push(interval(8, 0, 9, 24));
    let todo = day.todo().unwrap();
    assert!(todo.is_negative());
    assert_eq!(todo, Span::minutes(-24));
    assert_eq!(format_todo(todo, DURATION_FORMAT), "-00:24");
}

#[test]
fn default_week() {
    let state = State::default();
    let names: Vec<&str> = state.days.iter().map(|d| d.name.as_str()).collect();
    assert_eq!(names, vec!["Monday", "Tuesday", "Wednesday", "Thursday", "Friday"]);
    for d in &state.days {
        assert!(d.enabled);
        assert!(d.durations.is_empty());
        assert_eq!(d.target(), hm(7, 36));
    }
    assert_eq!(state.total_duration(), Some(Span::zero()));
}

#[test]
fn feeding_same_state_twice_records_once() {
    let mut h = HistoryBuffer::new(1000);
    let s = State::default();
    h.feed(0, &s);
    h.feed(10, &s.snapshot());
    assert!(!h.has_previous());
    assert!(!h.has_next());
    assert_eq!(h.len(), 1);
}

#[test]
fn step_back_returns_earlier_state() {
    let mut h = HistoryBuffer::new(1000);
    let a = State::default();
    let mut b = a.snapshot();
    b.days[1].durations.push(interval(9, 0, 10, 0));
    h.feed(0, &a);
    h.feed(2000, &b);
    assert!(h.has_previous());
    let back = h.step_back().unwrap();
    assert!(back.same_as(&a));
    assert!(!h.has_previous());
    assert!(h.has_next());
    let fwd = h.step_forward().unwrap();
    assert!(fwd.same_as(&b));
    assert!(h.step_forward().is_none());
}

#[test]
fn change_within_debounce_is_not_recorded() {
    let mut h = HistoryBuffer::new(1000);
    let a = State::default();
    let mut b = a.snapshot();
    b.days[0].enabled = false;
    h.feed(0, &a);
    h.feed(500, &b);
    assert_eq!(h.len(), 1);
    h.feed(1000, &b);
    assert_eq!(h.len(), 2);
}

#[test]
fn recording_after_undo_drops_redo() {
    let mut h = HistoryBuffer::new(0);
    let a = State::default();
    let mut b = a.snapshot();
    b.days[0].enabled = false;
    let mut c = a.snapshot();
    c.days[1].enabled = false;
    h.feed(0, &a);
    h.feed(1, &b);
    assert!(h.step_back().is_some());
    h.feed(2, &a);
    assert_eq!(h.len(), 2);
    h.feed(3, &c);
    assert_eq!(h.len(), 2);
    assert!(!h.has_next());
    assert!(h.step_back().unwrap().same_as(&a));
}

#[test]
fn empty_journal_steps_nowhere() {
    let mut h = HistoryBuffer::new(5);
    assert!(!h.has_previous());
    assert!(!h.has_next());
    assert!(h.step_back().is_none());
    assert!(h.step_forward().is_none());
}

#[test]
fn format_hours_minutes() {
    assert_eq!(format_duration(hm(7, 36), DURATION_FORMAT), "07:36");
    assert_eq!(format_duration(hm(38, 0), DURATION_FORMAT), "38:00");
    assert_eq!(format_duration(Span::zero(), DURATION_FORMAT), "00:00");
    assert_eq!(format_duration(hm(123, 5), DURATION_FORMAT), "123:05");
}

#[test]
fn format_seconds_and_literals() {
    let d = Span::from_nanos(3_723_999_999_999);
    assert_eq!(format_duration(d, "%H:%M:%S"), "01:02:03");
    assert_eq!(format_duration(d, "%%H h%Q"), "%01 h%Q");
    assert_eq!(format_duration(d, ""), "");
}

#[test]
fn format_negative_fields() {
    assert_eq!(format_duration(Span::minutes(-24), DURATION_FORMAT), "00:-24");
    assert_eq!(format_duration(Span::from_nanos(-90_000_000_000), "%H:%M:%S"), "00:-1:-30");
    assert_eq!(format_duration(hm(-12, 0), DURATION_FORMAT), "-12:00");
}

#[test]
fn format_todo_positive() {
    assert_eq!(format_todo(Span::minutes(36), DURATION_FORMAT), "00:36");
}

#[test]
fn time_point_rejects_each_component() {
    assert_eq!(TimePoint::new(-1_931_000, 0, 0, 0, 0, 0), Err(RangeError::JulianDay));
    assert_eq!(TimePoint::new(DAY, 24, 0, 0, 0, 0), Err(RangeError::Hour));
    assert_eq!(TimePoint::new(DAY, 23, 60, 0, 0, 0), Err(RangeError::Minute));
    assert_eq!(TimePoint::new(DAY, 23, 59, 60, 0, 0), Err(RangeError::Second));
    assert_eq!(TimePoint::new(DAY, 23, 59, 59, 1_000_000_000, 0), Err(RangeError::Nanosecond));
    assert_eq!(TimePoint::new(DAY, 23, 59, 59, 0, 93_600), Err(RangeError::Offset));
    assert!(TimePoint::new(5_373_484, 23, 59, 59, 999_999_999, -93_599).is_ok());
}

#[test]
fn set_hour_and_minute() {
    let mut t = at(10, 20);
    assert_eq!(t.set_hour(24), Err(RangeError::Hour));
    assert_eq!(t, at(10, 20));
    assert_eq!(t.set_minute(60), Err(RangeError::Minute));
    assert_eq!(t.set_hour(23), Ok(()));
    assert_eq!(t.set_minute(5), Ok(()));
    assert_eq!(t, at(23, 5));
}

#[test]
fn set_digits_composes_clock() {
    let mut t = at(10, 20);
    assert_eq!(t.set_digits(2, 9, 0, 0), Err(RangeError::Hour));
    assert_eq!(t.set_digits(1, 7, 6, 0), Err(RangeError::Minute));
    assert_eq!(t, at(10, 20));
    assert_eq!(t.set_digits(1, 7, 4, 5), Ok(()));
    assert_eq!(t, at(17, 45));
}

#[test]
fn elapsed_across_days_and_offsets() {
    let late = TimePoint::new(DAY + 1, 1, 0, 0, 0, 0).unwrap();
    let early = TimePoint::new(DAY, 23, 30, 0, 0, 0).unwrap();
    assert_eq!(late.elapsed_since(&early), Span::minutes(90));
    assert_eq!(early.elapsed_since(&late), Span::minutes(-90));
    let east = TimePoint::new(DAY, 12, 0, 0, 500, 3600).unwrap();
    let utc = TimePoint::new(DAY, 11, 0, 0, 0, 0).unwrap();
    assert_eq!(east.elapsed_since(&utc), Span::from_nanos(500));
}

#[test]
fn add_remove_clear_intervals() {
    let mut day = Day::new("Thursday".to_string());
    day.add_interval_at(at(9, 0));
    day.add_interval_at(at(10, 0));
    assert_eq!(day.durations.len(), 2);
    assert_eq!(day.durations[1].start(), at(10, 0));
    assert_eq!(day.durations[1].end(), at(10, 0));
    assert!(day.remove_interval(2).is_none());
    assert_eq!(day.remove_interval(0).map(|d| d.start()), Some(at(9, 0)));
    assert_eq!(day.durations.len(), 1);
    day.clear_intervals();
    assert!(day.durations.is_empty());
    day.clear_intervals();
    assert!(day.durations.is_empty());
}

#[test]
fn add_interval_now() {
    let mut day = Day::new("Wednesday".to_string());
    if day.add_interval() {
        assert_eq!(day.durations.len(), 1);
        let d = day.durations[0];
        assert_eq!(d.start(), d.end());
        assert!(d.start().hour < 24 && d.start().minute < 60);
    } else {
        assert!(day.durations.is_empty());
    }
}

#[test]
fn day_equality_and_snapshot() {
    let a = monday();
    let b = a.snapshot();
    assert!(a.same_as(&b));
    let c = monday().with_target(hm(8, 0));
    assert!(!a.same_as(&c));
    let mut d = monday();
    d.durations[1].set_end(at(17, 1));
    assert!(!a.same_as(&d));
    let s1 = State { days: vec![monday()] };
    let s2 = s1.snapshot();
    assert!(s1.same_as(&s2));
    assert!(!s1.same_as(&State::default()));
}

#[test]
fn clamp_digit_range() {
    assert_eq!(clamp_digit(7, 0, 2), 2);
    assert_eq!(clamp_digit(1, 3, 5), 3);
    assert_eq!(clamp_digit(4, 0, 9), 4);
}

#[test]
fn overflowing_total_is_reported() {
    let big = Span::from_nanos(i128::MAX);
    assert_eq!(big.checked_plus(Span::from_nanos(1)), None);
    let mut state = State { days: vec![
        Day::new("a".to_string()).with_target(big),
        Day::new("b".to_string()).with_target(Span::from_nanos(1)),
    ] };
    assert_eq!(state.total_target(), None);
    assert_eq!(state.todo(), None);
    state.days[1].enabled = false;
    assert_eq!(state.total_target(), Some(big));
}
