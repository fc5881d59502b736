//! A named day: its intervals of worked time, a target, and a switch that
//! takes the day out of every total without discarding its data.
use crate::interval::{length_of, ordered, Duration};
use crate::span::{fits, Span};
use crate::time_point::TimePoint;
use vstd::prelude::*;
use vstd::seq_lib::{commutative_foldl, lemma_fold_left_permutation};

verus! {

/// The step that adds one interval's length to a running total.
pub open spec fn plus_length() -> spec_fn(int, (TimePoint, TimePoint)) -> int {
    |acc: int, v: (TimePoint, TimePoint)| acc + length_of(v)
}

/// The summed length of a sequence of intervals.
pub open spec fn sum_lengths(s: Seq<(TimePoint, TimePoint)>) -> int {
    s.fold_left(0, plus_length())
}

/// What a day holds, as mathematical values.
pub struct DayView {
    pub intervals: Seq<(TimePoint, TimePoint)>,
    pub name: Seq<char>,
    pub target: int,
    pub enabled: bool,
}

impl DayView {
    /// Every interval is ordered.
    pub open spec fn wf(self) -> bool {
        forall|i: int| 0 <= i < self.intervals.len() ==> ordered(#[trigger] self.intervals[i])
    }

    /// The worked time the day contributes: zero when disabled.
    pub open spec fn worked(self) -> int {
        if self.enabled {
            sum_lengths(self.intervals)
        } else {
            0
        }
    }

    /// The target the day contributes: zero when disabled.
    pub open spec fn counted_target(self) -> int {
        if self.enabled {
            self.target
        } else {
            0
        }
    }
}

/// Summed lengths of ordered intervals are non-negative and grow with the
/// prefix taken.
pub proof fn lemma_prefix_sum_bounded(s: Seq<(TimePoint, TimePoint)>, k: int)
    requires
        0 <= k <= s.len(),
        forall|i: int| 0 <= i < s.len() ==> ordered(#[trigger] s[i]),
    ensures
        0 <= sum_lengths(s.take(k)) <= sum_lengths(s),
    decreases s.len(),
{
    if s.len() > 0 {
        let t = s.drop_last();
        assert forall|i: int| 0 <= i < t.len() implies ordered(#[trigger] t[i]) by {
            assert(t[i] == s[i]);
        }
        assert(ordered(s[s.len() - 1]));
        if k == s.len() {
            assert(s.take(k) =~= s);
            lemma_prefix_sum_bounded(t, t.len() as int);
            assert(t.take(t.len() as int) =~= t);
        } else {
            lemma_prefix_sum_bounded(t, k);
            assert(t.take(k) =~= s.take(k));
        }
    } else {
        assert(s.take(k) =~= s);
    }
}

/// A disabled day contributes no worked time, whatever intervals it holds.
pub proof fn lemma_disabled_day_works_nothing(d: DayView)
    requires
        !d.enabled,
    ensures
        d.worked() == 0,
{
}

/// The worked time of a day does not depend on the order of its intervals:
/// two days that hold the same intervals, in any order, work the same time.
pub proof fn lemma_worked_ignores_order(a: DayView, b: DayView)
    requires
        a.enabled == b.enabled,
        a.intervals.to_multiset() == b.intervals.to_multiset(),
    ensures
        a.worked() == b.worked(),
{
    let f = plus_length();
    assert(commutative_foldl(f)) by {
        assert forall|x: (TimePoint, TimePoint), y: (TimePoint, TimePoint), v: int|
            #[trigger] f(f(v, x), y) == f(f(v, y), x) by {}
    }
    lemma_fold_left_permutation(a.intervals, b.intervals, f, 0);
}

/// A day of work. `durations`, `name` and `enabled` are open to the caller;
/// the target is read through `target` and `todo`.
#[derive(Debug, Clone)]
pub struct Day {
    pub durations: Vec<Duration>,
    pub name: String,
    total_target: Span,
    pub enabled: bool,
}

impl View for Day {
    type V = DayView;

    closed spec fn view(&self) -> DayView {
        DayView {
            intervals: self.durations@.map_values(|d: Duration| d@),
            name: self.name@,
            target: self.total_target@,
            enabled: self.enabled,
        }
    }
}

impl Day {
    pub open spec fn wf(&self) -> bool {
        self@.wf()
    }

    /// An enabled day with no intervals and a zero target.
    pub fn new(name: String) -> (r: Day)
        ensures
            r@ == (DayView { intervals: seq![], name: name@, target: 0, enabled: true }),
    {
        let r = Day { durations: Vec::new(), name, total_target: Span::zero(), enabled: true };
        assert(r@.intervals =~= seq![]);
        r
    }

    /// The same day with its stored target replaced.
    pub fn with_target(self, target: Span) -> (r: Day)
        ensures
            r@ == (DayView { target: target@, ..self@ }),
    {
        let mut d = self;
        d.total_target = target;
        d
    }

    /// The target the day counts towards: zero when disabled.
    pub fn target(&self) -> (r: Span)
        ensures
            r@ == self@.counted_target(),
    {
        if !self.enabled {
            return Span::zero();
        }
        self.total_target
    }

    /// The stored target, whether or not the day is enabled.
    pub fn stored_target(&self) -> (r: Span)
        ensures
            r@ == self@.target,
    {
        self.total_target
    }

    /// The total worked time: zero when disabled, else the summed lengths of
    /// the intervals; `None` where that sum does not fit in a `Span`.
    pub fn duration(&self) -> (r: Option<Span>)
        requires
            self.wf(),
        ensures
            r.is_some() <==> fits(self@.worked()),
            r matches Some(s) ==> s@ == self@.worked(),
    {
        if !self.enabled {
            return Some(Span::zero());
        }
        let ghost s = self@.intervals;
        let mut total = Span::zero();
        let mut i: usize = 0;
        assert(s.take(0) =~= seq![]);
        while i < self.durations.len()
            invariant
                i <= self.durations.len(),
                s == self@.intervals,
                self@.wf(),
                self.enabled,
                total@ == sum_lengths(s.take(i as int)),
            decreases self.durations.len() - i,
        {
            assert(s[i as int] == self.durations@[i as int]@);
            let d = self.durations[i].duration();
            assert(s.take(i + 1).drop_last() =~= s.take(i as int));
            proof {
                lemma_prefix_sum_bounded(s, i + 1);
            }
            match total.checked_plus(d) {
                Some(t) => total = t,
                None => return None,
            }
            i += 1;
        }
        assert(s.take(i as int) =~= s);
        Some(total)
    }

    /// The stored target minus the worked time; `None` where either does not
    /// fit in a `Span`.
    pub fn todo(&self) -> (r: Option<Span>)
        requires
            self.wf(),
        ensures
            r.is_some() <==> fits(self@.worked()) && fits(self@.target - self@.worked()),
            r matches Some(s) ==> s@ == self@.target - self@.worked(),
    {
        match self.duration() {
            Some(done) => self.total_target.checked_minus(done),
            None => None,
        }
    }

    pub fn set_enabled(&mut self, enabled: bool)
        ensures
            final(self)@ == (DayView { enabled, ..old(self)@ }),
    {
        self.enabled = enabled;
    }

    /// Appends a zero-length interval at `at`.
    pub fn add_interval_at(&mut self, at: TimePoint)
        requires
            at.wf(),
        ensures
            final(self)@ == (DayView {
                intervals: old(self)@.intervals.push((at, at)),
                ..old(self)@
            }),
            old(self).wf() ==> final(self).wf(),
    {
        let d = Duration::new(at);
        self.durations.push(d);
        assert(self@.intervals =~= old(self)@.intervals.push((at, at)));
    }

    /// Appends a zero-length interval at the local time now. Where the local
    /// clock cannot be read, nothing changes and `false` is returned.
    pub fn add_interval(&mut self) -> (r: bool)
        requires
            old(self).wf(),
        ensures
            final(self).wf(),
            r ==> exists|t: TimePoint|
                t.wf() && final(self)@ == (DayView {
                    intervals: old(self)@.intervals.push((t, t)),
                    ..old(self)@
                }),
            !r ==> final(self)@ == old(self)@,
    {
        match TimePoint::now() {
            Some(t) => {
                self.add_interval_at(t);
                assert(self@.intervals.last() == (t, t));
                assert(forall|i: int|
                    0 <= i < old(self)@.intervals.len() ==> self@.intervals[i]
                        == old(self)@.intervals[i]);
                true
            },
            None => false,
        }
    }

    /// Removes the interval at `index` and hands it back; an index past the
    /// end is rejected with `None` and nothing changes.
    pub fn remove_interval(&mut self, index: usize) -> (r: Option<Duration>)
        ensures
            index < old(self)@.intervals.len() ==> (r matches Some(d) && d@
                == old(self)@.intervals[index as int]) && final(self)@ == (DayView {
                intervals: old(self)@.intervals.remove(index as int),
                ..old(self)@
            }),
            index >= old(self)@.intervals.len() ==> r is None && final(self)@ == old(self)@,
    {
        if index >= self.durations.len() {
            return None;
        }
        let d = self.durations.remove(index);
        assert(self@.intervals =~= old(self)@.intervals.remove(index as int));
        Some(d)
    }

    /// Removes every interval.
    pub fn clear_intervals(&mut self)
        ensures
            final(self)@ == (DayView { intervals: seq![], ..old(self)@ }),
    {
        self.durations.clear();
        assert(self@.intervals =~= seq![]);
    }

    /// An independent copy with the same value.
    pub fn snapshot(&self) -> (r: Day)
        ensures
            r@ == self@,
    {
        let mut durations: Vec<Duration> = Vec::new();
        let mut i: usize = 0;
        while i < self.durations.len()
            invariant
                i <= self.durations.len(),
                durations@ == self.durations@.take(i as int),
            decreases self.durations.len() - i,
        {
            durations.push(self.durations[i]);
            assert(durations@ =~= self.durations@.take(i + 1));
            i += 1;
        }
        assert(durations@ =~= self.durations@);
        Day {
            durations,
            name: self.name.clone(),
            total_target: self.total_target,
            enabled: self.enabled,
        }
    }

    /// Whether two days hold the same value: name, switch, target and
    /// intervals in order.
    pub fn same_as(&self, other: &Day) -> (r: bool)
        ensures
            r == (self@ == other@),
    {
        if self.enabled != other.enabled || self.total_target != other.total_target
            || self.name != other.name || self.durations.len() != other.durations.len() {
            proof {
                if self@ == other@ {
                    assert(self@.intervals.len() == other@.intervals.len());
                }
            }
            return false;
        }
        let mut i: usize = 0;
        while i < self.durations.len()
            invariant
                i <= self.durations.len(),
                self.durations.len() == other.durations.len(),
                forall|j: int| 0 <= j < i ==> self.durations@[j] == other.durations@[j],
            decreases self.durations.len() - i,
        {
            if self.durations[i] != other.durations[i] {
                proof {
                    Duration::lemma_view_injective(self.durations@[i as int], other.durations@[i as int]);
                }
                assert(self@.intervals[i as int] != other@.intervals[i as int]);
                return false;
            }
            i += 1;
        }
        assert(self.durations@ =~= other.durations@);
        assert(self@.intervals =~= other@.intervals);
        true
    }
}

impl PartialEq for Day {
    fn eq(&self, other: &Day) -> (r: bool) {
        self.same_as(other)
    }
}

impl vstd::std_specs::cmp::PartialEqSpecImpl for Day {
    open spec fn obeys_eq_spec() -> bool {
        true
    }

    open spec fn eq_spec(&self, other: &Day) -> bool {
        self@ == other@
    }
}

} // verus!
