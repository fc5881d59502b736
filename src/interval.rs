//! An interval of worked time: a start and an end point, kept in order.
use crate::span::Span;
use crate::time_point::TimePoint;
use vstd::prelude::*;

verus! {

/// Start and end are valid points and the end is not before the start.
pub open spec fn ordered(v: (TimePoint, TimePoint)) -> bool {
    v.0.wf() && v.1.wf() && v.0.instant() <= v.1.instant()
}

/// The length of an interval in nanoseconds.
pub open spec fn length_of(v: (TimePoint, TimePoint)) -> int {
    v.1.instant() - v.0.instant()
}

/// An interval from `start` to `end`. Its view is the pair (start, end); every
/// operation keeps `end` at or after `start`.
#[derive(Clone, Copy, Debug, PartialEq, Eq, Structural)]
pub struct Duration {
    start: TimePoint,
    end: TimePoint,
}

impl View for Duration {
    type V = (TimePoint, TimePoint);

    closed spec fn view(&self) -> (TimePoint, TimePoint) {
        (self.start, self.end)
    }
}

impl Duration {
    pub open spec fn wf(&self) -> bool {
        ordered(self@)
    }

    /// Two intervals with the same view are the same interval.
    pub proof fn lemma_view_injective(a: Duration, b: Duration)
        ensures
            a@ == b@ ==> a == b,
    {
    }

    /// A zero-length interval at `at`.
    pub fn new(at: TimePoint) -> (r: Duration)
        requires
            at.wf(),
        ensures
            r@ == (at, at),
            r.wf(),
    {
        Duration { start: at, end: at }
    }

    /// A zero-length interval at the local time now, or `None` where the
    /// local clock cannot be read.
    pub fn now() -> (r: Option<Duration>)
        ensures
            r matches Some(d) ==> d.wf() && d@.0 == d@.1,
    {
        match TimePoint::now() {
            Some(t) => Some(Duration::new(t)),
            None => None,
        }
    }

    pub fn start(&self) -> (r: TimePoint)
        ensures
            r == self@.0,
    {
        self.start
    }

    pub fn end(&self) -> (r: TimePoint)
        ensures
            r == self@.1,
    {
        self.end
    }

    /// Moves the start to `t`; where that passes the end, the end snaps to
    /// `t` too.
    pub fn set_start(&mut self, t: TimePoint)
        requires
            t.wf(),
            old(self)@.1.wf(),
        ensures
            final(self)@.0 == t,
            final(self)@.1 == if old(self)@.1.instant() < t.instant() {
                t
            } else {
                old(self)@.1
            },
            final(self).wf(),
    {
        self.start = t;
        if self.end.elapsed_since(&t).is_negative() {
            self.end = t;
        }
    }

    /// Moves the end to `t`; where that comes before the start, the start
    /// snaps to `t` too.
    pub fn set_end(&mut self, t: TimePoint)
        requires
            t.wf(),
            old(self)@.0.wf(),
        ensures
            final(self)@.1 == t,
            final(self)@.0 == if t.instant() < old(self)@.0.instant() {
                t
            } else {
                old(self)@.0
            },
            final(self).wf(),
    {
        self.end = t;
        if t.elapsed_since(&self.start).is_negative() {
            self.start = t;
        }
    }

    /// The time from start to end.
    pub fn duration(&self) -> (r: Span)
        requires
            self.wf(),
        ensures
            r@ == length_of(self@),
            r@ >= 0,
    {
        self.end.elapsed_since(&self.start)
    }
}

} // verus!
