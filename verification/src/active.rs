//! The table of jobs that are running or have run.

use vstd::prelude::*;
use crate::text::{copy_labels, texts};

verus! {

/// The state of one job as the table shows it.
#[derive(Debug, PartialEq, Eq)]
pub struct JobSnapshot {
    pub id: String,
    pub options: Vec<String>,
    pub current_highlight: usize,
    pub tick_count: usize,
    pub is_complete: bool,
}

/// A snapshot as plain mathematical values.
pub struct JobSnapshotView {
    pub id: Seq<char>,
    pub options: Seq<Seq<char>>,
    pub current_highlight: nat,
    pub tick_count: nat,
    pub is_complete: bool,
}

impl View for JobSnapshot {
    type V = JobSnapshotView;

    open spec fn view(&self) -> JobSnapshotView {
        JobSnapshotView {
            id: self.id@,
            options: texts(self.options@),
            current_highlight: self.current_highlight as nat,
            tick_count: self.tick_count as nat,
            is_complete: self.is_complete,
        }
    }
}

impl Clone for JobSnapshot {
    fn clone(&self) -> (copy: Self)
        ensures
            copy@ == self@,
    {
        JobSnapshot {
            id: self.id.clone(),
            options: copy_labels(&self.options),
            current_highlight: self.current_highlight,
            tick_count: self.tick_count,
            is_complete: self.is_complete,
        }
    }
}

/// A change that a job makes to its own entry.
#[derive(Clone, Copy, Debug)]
pub enum JobChange {
    /// A tick was reached: the cursor moves.
    Tick { highlight: usize, tick: usize },
    /// The job has finished.
    Complete,
}

/// The snapshots of `entries`, each by its view.
pub open spec fn snapshot_views(entries: Seq<JobSnapshot>) -> Seq<JobSnapshotView> {
    entries.map_values(|s: JobSnapshot| s@)
}

/// No two entries of `table` share an identifier.
pub open spec fn distinct_ids(table: Seq<JobSnapshotView>) -> bool {
    forall|i: int, j: int|
        0 <= i < j < table.len() ==> (#[trigger] table[i]).id != (#[trigger] table[j]).id
}

/// `table` has an entry for `id`.
pub open spec fn holds(table: Seq<JobSnapshotView>, id: Seq<char>) -> bool {
    exists|k: int| 0 <= k < table.len() && (#[trigger] table[k]).id == id
}

/// Where the entry for `id` stands in `table`, if `holds(table, id)`.
pub open spec fn slot(table: Seq<JobSnapshotView>, id: Seq<char>) -> int {
    choose|k: int| 0 <= k < table.len() && (#[trigger] table[k]).id == id
}

/// `table` after `entry` is inserted: it takes the place of the entry with
/// the same identifier, or goes to the end where there is none.
pub open spec fn inserted(table: Seq<JobSnapshotView>, entry: JobSnapshotView) -> Seq<
    JobSnapshotView,
> {
    if holds(table, entry.id) {
        table.update(slot(table, entry.id), entry)
    } else {
        table.push(entry)
    }
}

/// `entry` after `change`.
pub open spec fn changed(entry: JobSnapshotView, change: JobChange) -> JobSnapshotView {
    match change {
        JobChange::Tick { highlight, tick } => JobSnapshotView {
            current_highlight: highlight as nat,
            tick_count: tick as nat,
            ..entry
        },
        JobChange::Complete => JobSnapshotView { is_complete: true, ..entry },
    }
}

/// `table` after `change` is applied to the entry for `id`; unchanged where
/// there is no such entry.
pub open spec fn updated(table: Seq<JobSnapshotView>, id: Seq<char>, change: JobChange) -> Seq<
    JobSnapshotView,
> {
    if holds(table, id) {
        table.update(slot(table, id), changed(table[slot(table, id)], change))
    } else {
        table
    }
}

/// The entries of `table` whose job has not finished, in table order.
pub open spec fn unfinished(table: Seq<JobSnapshotView>) -> Seq<JobSnapshotView> {
    table.filter(|s: JobSnapshotView| !s.is_complete)
}

/// In a table with distinct identifiers, an entry's position is the slot of
/// its identifier.
pub proof fn lemma_slot_is_unique(table: Seq<JobSnapshotView>, k: int)
    requires
        distinct_ids(table),
        0 <= k < table.len(),
    ensures
        holds(table, table[k].id),
        slot(table, table[k].id) == k,
{
    let id = table[k].id;
    assert(holds(table, id));
    let s = slot(table, id);
    assert(0 <= s < table.len() && table[s].id == id);
    if s < k {
        assert(table[s].id != table[k].id);
    } else if k < s {
        assert(table[k].id != table[s].id);
    }
}

/// Registry of job states, one entry per job identifier, in the order in
/// which the identifiers were first inserted.
pub struct ActiveJobTable {
    entries: Vec<JobSnapshot>,
}

impl View for ActiveJobTable {
    type V = Seq<JobSnapshotView>;

    closed spec fn view(&self) -> Seq<JobSnapshotView> {
        snapshot_views(self.entries@)
    }
}

impl ActiveJobTable {
    /// Every identifier occurs once.
    pub open spec fn wf(&self) -> bool {
        distinct_ids(self@)
    }

    /// An empty table.
    pub fn new() -> (table: Self)
        ensures
            table.wf(),
            table@ == Seq::<JobSnapshotView>::empty(),
    {
        let table = ActiveJobTable { entries: Vec::new() };
        assert(table@ =~= Seq::<JobSnapshotView>::empty());
        table
    }

    /// Number of entries, finished jobs included.
    pub fn len(&self) -> (n: usize)
        ensures
            n == self@.len(),
    {
        self.entries.len()
    }

    /// Position of the entry for `id`.
    fn find(&self, id: &String) -> (found: Option<usize>)
        requires
            self.wf(),
        ensures
            found is Some <==> holds(self@, id@),
            found is Some ==> found->0 == slot(self@, id@) && found->0 < self@.len(),
    {
        let mut k: usize = 0;
        while k < self.entries.len()
            invariant
                k <= self.entries@.len(),
                self@ == snapshot_views(self.entries@),
                distinct_ids(self@),
                forall|j: int| 0 <= j < k ==> (#[trigger] self@[j]).id != id@,
            decreases self.entries@.len() - k,
        {
            if self.entries[k].id == *id {
                assert(self@[k as int].id == id@);
                proof {
                    lemma_slot_is_unique(self@, k as int);
                }
                return Some(k);
            }
            k = k + 1;
        }
        None
    }

    /// Inserts `entry` under its identifier, replacing an entry that has the
    /// same one.
    pub fn insert(&mut self, entry: JobSnapshot)
        requires
            old(self).wf(),
        ensures
            final(self).wf(),
            final(self)@ == inserted(old(self)@, entry@),
    {
        match self.find(&entry.id) {
            Some(k) => {
                self.entries.set(k, entry);
                assert(self@ =~= inserted(old(self)@, entry@));
            },
            None => {
                self.entries.push(entry);
                assert(self@ =~= inserted(old(self)@, entry@));
            },
        }
    }

    /// Applies `change` to the entry for `id`. Does nothing where the table
    /// has no such entry.
    pub fn update(&mut self, id: &String, change: JobChange)
        requires
            old(self).wf(),
        ensures
            final(self).wf(),
            final(self)@ == updated(old(self)@, id@, change),
    {
        match self.find(id) {
            Some(k) => {
                match change {
                    JobChange::Tick { highlight, tick } => {
                        self.entries[k].current_highlight = highlight;
                        self.entries[k].tick_count = tick;
                    },
                    JobChange::Complete => {
                        self.entries[k].is_complete = true;
                    },
                }
                assert(self@ =~= updated(old(self)@, id@, change));
            },
            None => {},
        }
    }

    /// The state of the job `id`, if the table has it.
    pub fn get(&self, id: &String) -> (found: Option<JobSnapshot>)
        requires
            self.wf(),
        ensures
            found is Some <==> holds(self@, id@),
            found is Some ==> found->0@ == self@[slot(self@, id@)],
    {
        match self.find(id) {
            Some(k) => Some(self.entries[k].clone()),
            None => None,
        }
    }

    /// A copy of every entry, in table order.
    pub fn snapshot_all(&self) -> (out: Vec<JobSnapshot>)
        ensures
            snapshot_views(out@) == self@,
    {
        let mut out: Vec<JobSnapshot> = Vec::new();
        let mut i: usize = 0;
        while i < self.entries.len()
            invariant
                i <= self.entries@.len(),
                out@.len() == i,
                forall|k: int| 0 <= k < i ==> (#[trigger] out@[k])@ == self.entries@[k]@,
            decreases self.entries@.len() - i,
        {
            out.push(self.entries[i].clone());
            i = i + 1;
        }
        assert(snapshot_views(out@) =~= self@);
        out
    }

    /// A copy of every entry whose job has not finished, in table order.
    pub fn active(&self) -> (out: Vec<JobSnapshot>)
        ensures
            snapshot_views(out@) == unfinished(self@),
    {
        let mut out: Vec<JobSnapshot> = Vec::new();
        let mut i: usize = 0;
        let ghost running = |s: JobSnapshotView| !s.is_complete;
        assert(self@.take(0) =~= Seq::<JobSnapshotView>::empty());
        assert(snapshot_views(out@) =~= self@.take(0).filter(running));
        while i < self.entries.len()
            invariant
                i <= self.entries@.len(),
                self@ == snapshot_views(self.entries@),
                running == |s: JobSnapshotView| !s.is_complete,
                snapshot_views(out@) == self@.take(i as int).filter(running),
            decreases self.entries@.len() - i,
        {
            proof {
                assert(self@.take(i + 1) =~= self@.take(i as int).push(self@[i as int]));
                self@.take(i as int).lemma_filter_push(self@[i as int], running);
            }
            if !self.entries[i].is_complete {
                let ghost before = out@;
                let copy = self.entries[i].clone();
                out.push(copy);
                assert(snapshot_views(out@) =~= snapshot_views(before).push(copy@));
            }
            i = i + 1;
        }
        assert(self@.take(self@.len() as int) =~= self@);
        out
    }
}

/// A change to the entry of one job leaves the entries of all other jobs
/// as they are, and adds or removes no entry.
pub proof fn lemma_update_is_local(
    table: Seq<JobSnapshotView>,
    id: Seq<char>,
    change: JobChange,
    other: Seq<char>,
)
    requires
        distinct_ids(table),
        other != id,
    ensures
        updated(table, id, change).len() == table.len(),
        distinct_ids(updated(table, id, change)),
        holds(updated(table, id, change), other) == holds(table, other),
        holds(table, other) ==> updated(table, id, change)[slot(
            updated(table, id, change),
            other,
        )] == table[slot(table, other)],
{
    let after = updated(table, id, change);
    if holds(table, id) {
        let k = slot(table, id);
        assert forall|j: int| 0 <= j < table.len() implies (#[trigger] after[j]).id == table[j].id by {}
        if holds(table, other) {
            let m = slot(table, other);
            assert(after[m] == table[m]);
            lemma_slot_is_unique(after, m);
        }
        if holds(after, other) {
            let m = slot(after, other);
            assert(table[m].id == other);
        }
    }
}

/// A change reaches the entry of the job it is meant for.
pub proof fn lemma_update_reaches_entry(table: Seq<JobSnapshotView>, id: Seq<char>, change: JobChange)
    requires
        distinct_ids(table),
        holds(table, id),
    ensures
        holds(updated(table, id, change), id),
        updated(table, id, change)[slot(updated(table, id, change), id)] == changed(
            table[slot(table, id)],
            change,
        ),
{
    let after = updated(table, id, change);
    let k = slot(table, id);
    assert forall|j: int| 0 <= j < table.len() implies (#[trigger] after[j]).id == table[j].id by {}
    assert(after[k].id == id);
    lemma_slot_is_unique(after, k);
}

} // verus!
