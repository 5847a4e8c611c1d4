//! Undo / redo history of snapshots.
//!
//! The history keeps a list of snapshots and a cursor into it. Recording a
//! snapshot drops everything after the cursor, appends the snapshot and keeps
//! at most `HISTORY_LIMIT` of them. Stepping back returns the snapshot just
//! before the cursor (first saving the present state when the cursor is at the
//! end); stepping forward returns the snapshot just after it.

use vstd::prelude::*;

verus! {

/// At most this many snapshots are kept by `record`.
pub const HISTORY_LIMIT: usize = 50;

/// The abstract content of a history: its snapshots and its cursor.
pub ghost struct HistoryModel<T> {
    pub entries: Seq<T>,
    pub cursor: int,
}

/// The shape every history keeps: the cursor lies within the list and within
/// the limit, and the list holds at most one snapshot more than the limit (the
/// present state saved by the first step back from a full history).
pub open spec fn model_wf<T>(m: HistoryModel<T>) -> bool {
    &&& 0 <= m.cursor <= m.entries.len() <= HISTORY_LIMIT + 1
    &&& m.cursor <= HISTORY_LIMIT
}

/// The history after `record(s)`.
pub open spec fn model_record<T>(m: HistoryModel<T>, s: T) -> HistoryModel<T> {
    let e = m.entries.take(m.cursor).push(s);
    let kept = if e.len() > HISTORY_LIMIT { e.drop_first() } else { e };
    HistoryModel { entries: kept, cursor: kept.len() as int }
}

/// The history after `step_back(current)`.
pub open spec fn model_step_back<T>(m: HistoryModel<T>, current: T) -> HistoryModel<T> {
    if m.cursor == 0 {
        m
    } else {
        let e = if m.cursor == m.entries.len() { m.entries.push(current) } else { m.entries };
        HistoryModel { entries: e, cursor: m.cursor - 1 }
    }
}

/// What `step_back(current)` returns.
pub open spec fn model_step_back_result<T>(m: HistoryModel<T>, current: T) -> Option<T> {
    if m.cursor == 0 {
        None
    } else {
        Some(model_step_back(m, current).entries[m.cursor - 1])
    }
}

/// The history after `step_forward()`.
pub open spec fn model_step_forward<T>(m: HistoryModel<T>) -> HistoryModel<T> {
    if m.cursor + 1 >= m.entries.len() {
        m
    } else {
        HistoryModel { entries: m.entries, cursor: m.cursor + 1 }
    }
}

/// What `step_forward()` returns.
pub open spec fn model_step_forward_result<T>(m: HistoryModel<T>) -> Option<T> {
    if m.cursor + 1 >= m.entries.len() {
        None
    } else {
        Some(m.entries[m.cursor + 1])
    }
}

/// The history after `discard_last()`.
pub open spec fn model_discard_last<T>(m: HistoryModel<T>) -> HistoryModel<T> {
    if m.cursor > 0 {
        HistoryModel { entries: m.entries.take(m.cursor - 1), cursor: m.cursor - 1 }
    } else {
        m
    }
}

/// Undo / redo history.
pub struct History<T> {
    entries: Vec<T>,
    cursor: usize,
}

impl<T> History<T> {
    /// The history has the shape that `model_wf` describes.
    pub open spec fn wf(self) -> bool {
        model_wf(self.model())
    }

    pub closed spec fn model(self) -> HistoryModel<T> {
        HistoryModel { entries: self.entries@, cursor: self.cursor as int }
    }

    /// An empty history.
    pub fn new() -> (r: Self)
        ensures
            r.wf(),
            r.model().entries == Seq::<T>::empty(),
            r.model().cursor == 0,
    {
        History { entries: Vec::new(), cursor: 0 }
    }

    /// The number of snapshots held.
    pub fn len(&self) -> (r: usize)
        ensures
            r == self.model().entries.len(),
    {
        self.entries.len()
    }

    /// The cursor.
    pub fn cursor(&self) -> (r: usize)
        ensures
            r == self.model().cursor,
    {
        self.cursor
    }

    /// The snapshot at position `i`.
    pub fn get(&self, i: usize) -> (r: &T)
        requires
            i < self.model().entries.len(),
        ensures
            *r == self.model().entries[i as int],
    {
        &self.entries[i]
    }

    /// Saves a snapshot: drops every snapshot after the cursor, appends `s`,
    /// drops the oldest when more than `HISTORY_LIMIT` are held, and puts the
    /// cursor at the end.
    pub fn record(&mut self, s: T)
        requires
            old(self).wf(),
        ensures
            final(self).wf(),
            final(self).model() == model_record(old(self).model(), s),
    {
        let ghost m = self.model();
        let c = self.cursor;
        self.entries.truncate(c);
        self.entries.push(s);
        if self.entries.len() > HISTORY_LIMIT {
            self.entries.remove(0);
        }
        assert(self.entries@ =~= model_record(m, s).entries);
        self.cursor = self.entries.len();
    }

    /// Steps back one snapshot. When the cursor is at the end, `current` is
    /// saved first, so that stepping forward can return to it. Returns the
    /// snapshot before the cursor, or nothing when the cursor is at the start.
    pub fn step_back(&mut self, current: T) -> (r: Option<&T>)
        requires
            old(self).wf(),
        ensures
            final(self).wf(),
            final(self).model() == model_step_back(old(self).model(), current),
            match r {
                Some(x) => model_step_back_result(old(self).model(), current) == Some(*x),
                None => model_step_back_result(old(self).model(), current) is None,
            },
    {
        if self.cursor == 0 {
            return None;
        }
        let ghost m = self.model();
        let c = self.cursor;
        if c == self.entries.len() {
            self.entries.push(current);
        }
        self.cursor = c - 1;
        assert(self.model().entries =~= model_step_back(m, current).entries);
        Some(&self.entries[c - 1])
    }

    /// Steps forward one snapshot and returns it, or nothing when there is no
    /// snapshot after the cursor.
    pub fn step_forward(&mut self) -> (r: Option<&T>)
        requires
            old(self).wf(),
        ensures
            final(self).wf(),
            final(self).model() == model_step_forward(old(self).model()),
            match r {
                Some(x) => model_step_forward_result(old(self).model()) == Some(*x),
                None => model_step_forward_result(old(self).model()) is None,
            },
    {
        if self.cursor + 1 >= self.entries.len() {
            return None;
        }
        self.cursor = self.cursor + 1;
        Some(&self.entries[self.cursor])
    }

    /// Takes back the last `record`: moves the cursor back by one and drops
    /// every snapshot from the cursor on. Does nothing when the cursor is at the start.
    pub fn discard_last(&mut self)
        requires
            old(self).wf(),
        ensures
            final(self).wf(),
            final(self).model() == model_discard_last(old(self).model()),
    {
        if self.cursor > 0 {
            let c = self.cursor - 1;
            self.cursor = c;
            self.entries.truncate(c);
            assert(self.model().entries =~= model_discard_last(old(self).model()).entries);
        }
    }
}

// ─── Laws ───────────────────────────────────────────────────────────────────

/// Every operation keeps a well-formed history well-formed.
pub proof fn law_operations_keep_shape<T>(m: HistoryModel<T>, s: T)
    requires
        model_wf(m),
    ensures
        model_wf(model_record(m, s)),
        model_wf(model_step_back(m, s)),
        model_wf(model_step_forward(m)),
        model_wf(model_discard_last(m)),
        model_record(m, s).entries.len() <= HISTORY_LIMIT,
{
}

/// Stepping back right after recording `s` returns `s`.
pub proof fn law_step_back_after_record<T>(m: HistoryModel<T>, s: T, current: T)
    requires
        model_wf(m),
    ensures
        model_step_back_result(model_record(m, s), current) == Some(s),
{
    let r = model_record(m, s);
    assert(r.entries.len() >= 1);
    assert(r.entries[r.cursor - 1] == s);
}

/// Stepping forward right after stepping back returns what the cursor stood on
/// before: the saved present state when the cursor was at the end, else the
/// snapshot at the old cursor.
pub proof fn law_step_forward_after_step_back<T>(m: HistoryModel<T>, current: T)
    requires
        model_wf(m),
        m.cursor > 0,
    ensures
        model_step_forward_result(model_step_back(m, current)) == Some(
            if m.cursor == m.entries.len() { current } else { m.entries[m.cursor] },
        ),
        model_step_forward(model_step_back(m, current)).cursor == m.cursor,
{
}

/// Stepping back right after stepping forward returns the snapshot at the old
/// cursor and puts the cursor back where it was.
pub proof fn law_step_back_after_step_forward<T>(m: HistoryModel<T>, current: T)
    requires
        model_wf(m),
        m.cursor + 1 < m.entries.len(),
    ensures
        model_step_back_result(model_step_forward(m), current) == Some(m.entries[m.cursor]),
        model_step_back(model_step_forward(m), current) == m,
{
}

/// Recording drops what could be stepped forward to.
pub proof fn law_record_clears_forward<T>(m: HistoryModel<T>, s: T)
    requires
        model_wf(m),
    ensures
        model_step_forward_result(model_record(m, s)) is None,
{
}

/// Discarding right after recording leaves the snapshots before the old cursor
/// and the old cursor, as long as recording did not drop the oldest snapshot.
pub proof fn law_discard_after_record<T>(m: HistoryModel<T>, s: T)
    requires
        model_wf(m),
        m.cursor < HISTORY_LIMIT,
    ensures
        model_discard_last(model_record(m, s)) == (HistoryModel {
            entries: m.entries.take(m.cursor),
            cursor: m.cursor,
        }),
{
    let r = model_record(m, s);
    assert(r.entries.take(r.cursor - 1) =~= m.entries.take(m.cursor));
}

} // verus!
