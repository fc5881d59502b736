//! Signed lengths of time, counted in nanoseconds.
use vstd::prelude::*;

verus! {

pub const NANOS_PER_SECOND: i128 = 1_000_000_000;

pub const NANOS_PER_MINUTE: i128 = 60_000_000_000;

pub const NANOS_PER_HOUR: i128 = 3_600_000_000_000;

/// Whether a whole number of nanoseconds can be held by a `Span`.
pub open spec fn fits(x: int) -> bool {
    i128::MIN <= x <= i128::MAX
}

/// A signed length of time. Its view is the number of nanoseconds.
#[derive(Clone, Copy, Debug, PartialEq, Eq, Structural)]
pub struct Span {
    pub nanos: i128,
}

impl View for Span {
    type V = int;

    open spec fn view(&self) -> int {
        self.nanos as int
    }
}

impl Span {
    pub fn zero() -> (r: Span)
        ensures
            r@ == 0,
    {
        Span { nanos: 0 }
    }

    pub fn from_nanos(nanos: i128) -> (r: Span)
        ensures
            r@ == nanos,
    {
        Span { nanos }
    }

    pub fn hours(hours: i64) -> (r: Span)
        ensures
            r@ == hours * NANOS_PER_HOUR,
    {
        let h = hours as i128;
        assert(i64::MIN * NANOS_PER_HOUR <= h * NANOS_PER_HOUR <= i64::MAX * NANOS_PER_HOUR)
            by (nonlinear_arith)
            requires
                i64::MIN <= h <= i64::MAX,
        ;
        Span { nanos: h * NANOS_PER_HOUR }
    }

    pub fn minutes(minutes: i64) -> (r: Span)
        ensures
            r@ == minutes * NANOS_PER_MINUTE,
    {
        let m = minutes as i128;
        assert(i64::MIN * NANOS_PER_MINUTE <= m * NANOS_PER_MINUTE <= i64::MAX * NANOS_PER_MINUTE)
            by (nonlinear_arith)
            requires
                i64::MIN <= m <= i64::MAX,
        ;
        Span { nanos: m * NANOS_PER_MINUTE }
    }

    /// The sum of two spans, or `None` where it does not fit.
    pub fn checked_plus(self, other: Span) -> (r: Option<Span>)
        ensures
            r.is_some() <==> fits(self@ + other@),
            r matches Some(s) ==> s@ == self@ + other@,
    {
        match self.nanos.checked_add(other.nanos) {
            Some(n) => Some(Span { nanos: n }),
            None => None,
        }
    }

    /// The difference of two spans, or `None` where it does not fit.
    pub fn checked_minus(self, other: Span) -> (r: Option<Span>)
        ensures
            r.is_some() <==> fits(self@ - other@),
            r matches Some(s) ==> s@ == self@ - other@,
    {
        match self.nanos.checked_sub(other.nanos) {
            Some(n) => Some(Span { nanos: n }),
            None => None,
        }
    }

    pub fn is_negative(&self) -> (r: bool)
        ensures
            r == (self@ < 0),
    {
        self.nanos < 0
    }

    /// The magnitude of the span in nanoseconds.
    pub fn magnitude(&self) -> (r: u128)
        ensures
            r == if self@ < 0 { -self@ } else { self@ },
    {
        if self.nanos < 0 {
            ((-(self.nanos + 1)) as u128) + 1
        } else {
            self.nanos as u128
        }
    }
}

} // verus!
