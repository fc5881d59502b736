//! The week: an ordered list of days, the unit of equality, snapshots and
//! undo.
use crate::day::{Day, DayView};
use crate::span::{fits, Span, NANOS_PER_HOUR, NANOS_PER_MINUTE};
use vstd::prelude::*;

verus! {

/// The step that adds one day's worked time to a running total.
pub open spec fn plus_worked() -> spec_fn(int, DayView) -> int {
    |acc: int, d: DayView| acc + d.worked()
}

/// The step that adds one day's counted target to a running total.
pub open spec fn plus_target() -> spec_fn(int, DayView) -> int {
    |acc: int, d: DayView| acc + d.counted_target()
}

/// The worked time of a week: the sum of each day's worked time.
pub open spec fn week_worked(s: Seq<DayView>) -> int {
    s.fold_left(0, plus_worked())
}

/// The target of a week: the sum of each day's counted target.
pub open spec fn week_target(s: Seq<DayView>) -> int {
    s.fold_left(0, plus_target())
}

/// Every running total of the targets, day by day, fits in a `Span`.
pub open spec fn targets_fit(s: Seq<DayView>) -> bool {
    forall|k: int| 0 <= k <= s.len() ==> fits(#[trigger] week_target(s.take(k)))
}

/// Every day's intervals are ordered.
pub open spec fn days_wf(s: Seq<DayView>) -> bool {
    forall|i: int| 0 <= i < s.len() ==> (#[trigger] s[i]).wf()
}

/// The worked time of a day is non-negative.
pub proof fn lemma_worked_non_negative(d: DayView)
    requires
        d.wf(),
    ensures
        d.worked() >= 0,
{
    if d.enabled {
        crate::day::lemma_prefix_sum_bounded(d.intervals, 0);
        assert(d.intervals.take(0) =~= seq![]);
    }
}

/// Worked time summed over well-formed days is non-negative and grows with
/// the prefix taken.
pub proof fn lemma_week_prefix_bounded(s: Seq<DayView>, k: int)
    requires
        0 <= k <= s.len(),
        days_wf(s),
    ensures
        0 <= week_worked(s.take(k)) <= week_worked(s),
    decreases s.len(),
{
    if s.len() > 0 {
        let t = s.drop_last();
        assert forall|i: int| 0 <= i < t.len() implies (#[trigger] t[i]).wf() by {
            assert(t[i] == s[i]);
        }
        assert(s[s.len() - 1].wf());
        lemma_worked_non_negative(s[s.len() - 1]);
        if k == s.len() {
            assert(s.take(k) =~= s);
            lemma_week_prefix_bounded(t, t.len() as int);
            assert(t.take(t.len() as int) =~= t);
        } else {
            lemma_week_prefix_bounded(t, k);
            assert(t.take(k) =~= s.take(k));
        }
    } else {
        assert(s.take(k) =~= s);
    }
}

/// Switching off a day that was on lowers the week's worked time by exactly
/// that day's worked time, and its target by that day's target.
pub proof fn lemma_disabling_day(s: Seq<DayView>, i: int)
    requires
        0 <= i < s.len(),
        s[i].enabled,
    ensures
        week_worked(s.update(i, DayView { enabled: false, ..s[i] })) == week_worked(s)
            - s[i].worked(),
        week_target(s.update(i, DayView { enabled: false, ..s[i] })) == week_target(s)
            - s[i].counted_target(),
    decreases s.len(),
{
    let u = s.update(i, DayView { enabled: false, ..s[i] });
    if i == s.len() - 1 {
        assert(u.drop_last() =~= s.drop_last());
    } else {
        assert(u.drop_last() =~= s.drop_last().update(i, DayView { enabled: false, ..s[i] }));
        lemma_disabling_day(s.drop_last(), i);
    }
}

/// The target of each day in the default week: 7 hours 36 minutes.
pub open spec fn default_day_target() -> int {
    7 * NANOS_PER_HOUR + 36 * NANOS_PER_MINUTE
}

/// The names of the days in the default week, in order.
pub open spec fn default_day_names() -> Seq<Seq<char>> {
    seq!["Monday"@, "Tuesday"@, "Wednesday"@, "Thursday"@, "Friday"@]
}

/// An enabled day without intervals, named `name`, with target `target`.
fn workday(name: &str, target: Span) -> (r: Day)
    ensures
        r@ == (DayView { intervals: seq![], name: name@, target: target@, enabled: true }),
{
    Day::new(name.to_owned()).with_target(target)
}

/// A week of days.
#[derive(Debug, Clone)]
pub struct State {
    pub days: Vec<Day>,
}

impl View for State {
    type V = Seq<DayView>;

    open spec fn view(&self) -> Seq<DayView> {
        self.days@.map_values(|d: Day| d@)
    }
}

impl Default for State {
    /// Monday to Friday, each enabled, without intervals, with a target of
    /// 7 hours 36 minutes.
    fn default() -> (r: State)
        ensures
            r@.len() == 5,
            forall|i: int|
                0 <= i < 5 ==> (#[trigger] r@[i]) == (DayView {
                    intervals: seq![],
                    name: default_day_names()[i],
                    target: default_day_target(),
                    enabled: true,
                }),
            week_worked(r@) == 0,
            week_target(r@) == 5 * default_day_target(),
    {
        let target = Span::from_nanos(7 * NANOS_PER_HOUR + 36 * NANOS_PER_MINUTE);
        let mut days: Vec<Day> = Vec::new();
        days.push(workday("Monday", target));
        days.push(workday("Tuesday", target));
        days.push(workday("Wednesday", target));
        days.push(workday("Thursday", target));
        days.push(workday("Friday", target));
        let r = State { days };
        proof {
            let s = r@;
            assert(s.drop_last().drop_last().drop_last().drop_last().drop_last() =~= seq![]);
            reveal_with_fuel(Seq::fold_left, 6);
        }
        r
    }
}

impl State {
    pub open spec fn wf(&self) -> bool {
        days_wf(self@)
    }

    /// The week's worked time, the sum of each day's `duration()`; `None`
    /// where it does not fit in a `Span`.
    pub fn total_duration(&self) -> (r: Option<Span>)
        requires
            self.wf(),
        ensures
            r.is_some() <==> fits(week_worked(self@)),
            r matches Some(t) ==> t@ == week_worked(self@),
    {
        let ghost s = self@;
        let mut total = Span::zero();
        let mut i: usize = 0;
        assert(s.take(0) =~= seq![]);
        while i < self.days.len()
            invariant
                i <= self.days.len(),
                s == self@,
                days_wf(s),
                total@ == week_worked(s.take(i as int)),
            decreases self.days.len() - i,
        {
            assert(s[i as int] == self.days@[i as int]@);
            assert(s.take(i + 1).drop_last() =~= s.take(i as int));
            proof {
                lemma_week_prefix_bounded(s, i as int);
                lemma_week_prefix_bounded(s, i + 1);
            }
            let d = match self.days[i].duration() {
                Some(d) => d,
                None => return None,
            };
            match total.checked_plus(d) {
                Some(t) => total = t,
                None => return None,
            }
            i += 1;
        }
        assert(s.take(i as int) =~= s);
        Some(total)
    }

    /// The week's target, the sum of each day's `target()`; `None` where a
    /// running total, day by day, does not fit in a `Span`.
    pub fn total_target(&self) -> (r: Option<Span>)
        ensures
            r.is_some() <==> targets_fit(self@),
            r matches Some(t) ==> t@ == week_target(self@),
    {
        let ghost s = self@;
        let mut total = Span::zero();
        let mut i: usize = 0;
        assert(s.take(0) =~= seq![]);
        while i < self.days.len()
            invariant
                i <= self.days.len(),
                s == self@,
                total@ == week_target(s.take(i as int)),
                forall|k: int| 0 <= k <= i ==> fits(#[trigger] week_target(s.take(k))),
            decreases self.days.len() - i,
        {
            assert(s[i as int] == self.days@[i as int]@);
            assert(s.take(i + 1).drop_last() =~= s.take(i as int));
            match total.checked_plus(self.days[i].target()) {
                Some(t) => total = t,
                None => {
                    assert(!fits(week_target(s.take(i + 1))));
                    return None;
                },
            }
            i += 1;
        }
        assert(s.take(i as int) =~= s);
        Some(total)
    }

    /// The week's target minus its worked time; negative where more was
    /// worked than the target asks. `None` where a total does not fit.
    pub fn todo(&self) -> (r: Option<Span>)
        requires
            self.wf(),
        ensures
            r.is_some() <==> fits(week_worked(self@)) && targets_fit(self@) && fits(
                week_target(self@) - week_worked(self@),
            ),
            r matches Some(t) ==> t@ == week_target(self@) - week_worked(self@),
    {
        match (self.total_target(), self.total_duration()) {
            (Some(target), Some(done)) => target.checked_minus(done),
            _ => None,
        }
    }

    /// Switches the day at `index` on or off; an index past the end is
    /// rejected with `false` and nothing changes.
    pub fn set_day_enabled(&mut self, index: usize, enabled: bool) -> (r: bool)
        ensures
            r == (index < old(self)@.len()),
            r ==> final(self)@ == old(self)@.update(
                index as int,
                DayView { enabled, ..old(self)@[index as int] },
            ),
            !r ==> final(self)@ == old(self)@,
    {
        if index >= self.days.len() {
            return false;
        }
        let mut d = self.days.remove(index);
        d.set_enabled(enabled);
        self.days.insert(index, d);
        assert(self@ =~= old(self)@.update(
            index as int,
            DayView { enabled, ..old(self)@[index as int] },
        ));
        true
    }

    /// An independent copy with the same value.
    pub fn snapshot(&self) -> (r: State)
        ensures
            r@ == self@,
    {
        let mut days: Vec<Day> = Vec::new();
        let mut i: usize = 0;
        while i < self.days.len()
            invariant
                i <= self.days.len(),
                days@.len() == i,
                forall|j: int| 0 <= j < i ==> (#[trigger] days@[j])@ == self.days@[j]@,
            decreases self.days.len() - i,
        {
            let d = self.days[i].snapshot();
            days.push(d);
            i += 1;
        }
        let r = State { days };
        assert(r@ =~= self@);
        r
    }

    /// Whether two weeks hold the same value: the same days, in order.
    pub fn same_as(&self, other: &State) -> (r: bool)
        ensures
            r == (self@ == other@),
    {
        if self.days.len() != other.days.len() {
            assert(self@.len() != other@.len());
            return false;
        }
        let mut i: usize = 0;
        while i < self.days.len()
            invariant
                i <= self.days.len(),
                self.days.len() == other.days.len(),
                forall|j: int| 0 <= j < i ==> self@[j] == other@[j],
            decreases self.days.len() - i,
        {
            if !self.days[i].same_as(&other.days[i]) {
                assert(self@[i as int] != other@[i as int]);
                return false;
            }
            i += 1;
        }
        assert(self@ =~= other@);
        true
    }
}

impl PartialEq for State {
    fn eq(&self, other: &State) -> (r: bool) {
        self.same_as(other)
    }
}

impl vstd::std_specs::cmp::PartialEqSpecImpl for State {
    open spec fn obeys_eq_spec() -> bool {
        true
    }

    open spec fn eq_spec(&self, other: &State) -> bool {
        self@ == other@
    }
}

} // verus!
