//! A linear undo/redo journal of week snapshots, fed once per frame with a
//! caller-supplied, non-decreasing timestamp.
use crate::day::DayView;
use crate::state::State;
use vstd::prelude::*;

verus! {

/// What a journal holds: its entries (timestamp and week), the position of the
/// current entry, and the debounce window.
pub struct HistoryView {
    pub entries: Seq<(u64, Seq<DayView>)>,
    pub cursor: int,
    pub debounce: u64,
}

impl HistoryView {
    /// The cursor points at an entry, or at 0 while the journal is empty.
    pub open spec fn wf(self) -> bool {
        if self.entries.len() == 0 {
            self.cursor == 0
        } else {
            0 <= self.cursor < self.entries.len()
        }
    }

    /// Whether feeding `state` at `now` records a new entry: the journal is
    /// empty, or `state` differs from the current entry and the debounce
    /// window has passed since that entry's timestamp.
    pub open spec fn records(self, now: u64, state: Seq<DayView>) -> bool {
        self.entries.len() == 0 || (self.entries[self.cursor].1 != state && now
            >= self.entries[self.cursor].0 + self.debounce)
    }

    /// The journal after feeding `state` at `now`: a recorded entry replaces
    /// every entry after the cursor and becomes the current one.
    pub open spec fn fed(self, now: u64, state: Seq<DayView>) -> HistoryView {
        if !self.records(now, state) {
            self
        } else if self.entries.len() == 0 {
            HistoryView { entries: seq![(now, state)], cursor: 0, ..self }
        } else {
            HistoryView {
                entries: self.entries.take(self.cursor + 1).push((now, state)),
                cursor: self.cursor + 1,
                ..self
            }
        }
    }
}

/// An undo/redo journal over week snapshots.
#[derive(Debug)]
pub struct HistoryBuffer {
    entries: Vec<(u64, State)>,
    cursor: usize,
    debounce: u64,
}

impl View for HistoryBuffer {
    type V = HistoryView;

    closed spec fn view(&self) -> HistoryView {
        HistoryView {
            entries: self.entries@.map_values(|e: (u64, State)| (e.0, e.1@)),
            cursor: self.cursor as int,
            debounce: self.debounce,
        }
    }
}

impl HistoryBuffer {
    pub open spec fn wf(&self) -> bool {
        self@.wf()
    }

    /// An empty journal that records at most one entry per `debounce` units
    /// of the caller's clock.
    pub fn new(debounce: u64) -> (r: HistoryBuffer)
        ensures
            r@ == (HistoryView { entries: seq![], cursor: 0, debounce }),
            r.wf(),
    {
        let r = HistoryBuffer { entries: Vec::new(), cursor: 0, debounce };
        assert(r@.entries =~= seq![]);
        r
    }

    /// The number of entries recorded.
    pub fn len(&self) -> (r: usize)
        ensures
            r == self@.entries.len(),
    {
        self.entries.len()
    }

    /// Whether there is an entry before the current one.
    pub fn has_previous(&self) -> (r: bool)
        ensures
            r == (self@.cursor > 0),
    {
        self.cursor > 0
    }

    /// Whether there is an entry after the current one.
    pub fn has_next(&self) -> (r: bool)
        requires
            self.wf(),
        ensures
            r == (self@.cursor + 1 < self@.entries.len()),
    {
        self.entries.len() > 0 && self.cursor < self.entries.len() - 1
    }

    /// Offers the week as it stands at time `now`. It is recorded as a new
    /// current entry, dropping every entry after the old current one, when
    /// the journal is empty, or when it differs from the current entry and the
    /// debounce window has passed since that entry was recorded; otherwise
    /// nothing changes.
    pub fn feed(&mut self, now: u64, state: &State)
        requires
            old(self).wf(),
        ensures
            final(self)@ == old(self)@.fed(now, state@),
            final(self).wf(),
    {
        if self.entries.len() == 0 {
            self.entries.push((now, state.snapshot()));
            self.cursor = 0;
            assert(self@.entries =~= seq![(now, state@)]);
            return;
        }
        let last = self.entries[self.cursor].0;
        let changed = !self.entries[self.cursor].1.same_as(state);
        if changed && now >= last && now - last >= self.debounce {
            self.entries.truncate(self.cursor + 1);
            self.entries.push((now, state.snapshot()));
            self.cursor = self.cursor + 1;
            assert(self@.entries =~= old(self)@.entries.take(old(self)@.cursor + 1).push(
                (now, state@),
            ));
        }
    }

    /// Moves to the entry before the current one and hands back a copy of its
    /// week; `None`, with nothing changed, at the first entry.
    pub fn step_back(&mut self) -> (r: Option<State>)
        requires
            old(self).wf(),
        ensures
            old(self)@.cursor > 0 ==> (r matches Some(s) && s@ == old(self)@.entries[old(
                self,
            )@.cursor - 1].1) && final(self)@ == (HistoryView {
                cursor: old(self)@.cursor - 1,
                ..old(self)@
            }),
            old(self)@.cursor == 0 ==> r is None && final(self)@ == old(self)@,
            final(self).wf(),
    {
        if self.cursor == 0 {
            return None;
        }
        self.cursor = self.cursor - 1;
        Some(self.entries[self.cursor].1.snapshot())
    }

    /// Moves to the entry after the current one and hands back a copy of its
    /// week; `None`, with nothing changed, at the last entry.
    pub fn step_forward(&mut self) -> (r: Option<State>)
        requires
            old(self).wf(),
        ensures
            old(self)@.cursor + 1 < old(self)@.entries.len() ==> (r matches Some(s) && s@
                == old(self)@.entries[old(self)@.cursor + 1].1) && final(self)@ == (
            HistoryView { cursor: old(self)@.cursor + 1, ..old(self)@ }),
            old(self)@.cursor + 1 >= old(self)@.entries.len() ==> r is None && final(self)@
                == old(self)@,
            final(self).wf(),
    {
        if self.entries.len() == 0 || self.cursor >= self.entries.len() - 1 {
            return None;
        }
        self.cursor = self.cursor + 1;
        Some(self.entries[self.cursor].1.snapshot())
    }
}

/// Feeding a week that was just recorded changes nothing, whatever the time.
pub proof fn lemma_feed_same_state_again(h: HistoryView, t1: u64, t2: u64, s: Seq<DayView>)
    requires
        h.wf(),
        h.records(t1, s),
    ensures
        h.fed(t1, s).fed(t2, s) == h.fed(t1, s),
{
    let g = h.fed(t1, s);
    assert(g.entries[g.cursor].1 == s);
}

/// Feeding a fresh journal the same week twice leaves no previous entry.
pub proof fn lemma_fresh_feed_twice_has_no_previous(debounce: u64, t1: u64, t2: u64, s: Seq<DayView>)
    ensures
        ({
            let h = HistoryView { entries: seq![], cursor: 0, debounce };
            h.fed(t1, s).fed(t2, s).cursor == 0
        }),
{
    let h = HistoryView { entries: seq![], cursor: 0, debounce };
    lemma_feed_same_state_again(h, t1, t2, s);
}

/// After a fresh journal is fed `a` and then a different `b` once the
/// debounce window has passed, the entry before the current one is `a`: a
/// step back returns it.
pub proof fn lemma_step_back_returns_earlier(
    debounce: u64,
    t1: u64,
    t2: u64,
    a: Seq<DayView>,
    b: Seq<DayView>,
)
    requires
        a != b,
        t2 >= t1 + debounce,
    ensures
        ({
            let h = HistoryView { entries: seq![], cursor: 0, debounce }.fed(t1, a).fed(t2, b);
            h.cursor > 0 && h.entries[h.cursor - 1].1 == a
        }),
{
    let h0 = HistoryView { entries: seq![], cursor: 0, debounce };
    let h1 = h0.fed(t1, a);
    assert(h1.entries.take(1) =~= h1.entries);
}

} // verus!
