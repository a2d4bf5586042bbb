//! The bounded history of finished jobs.

use vstd::prelude::*;
use crate::text::{copy_labels, texts};

verus! {

/// Most records the history keeps.
pub const HISTORY_CAPACITY: usize = 100;

/// Most records that a query of the history shows.
pub const RECENT_WINDOW: usize = 20;

/// What one finished job left behind.
#[derive(Debug, PartialEq, Eq)]
pub struct JobRecord {
    pub id: String,
    pub timestamp: String,
    pub mode: String,
    pub options: Vec<String>,
    pub result: String,
    pub duration_ms: u64,
}

/// A record as plain mathematical values.
pub struct JobRecordView {
    pub id: Seq<char>,
    pub timestamp: Seq<char>,
    pub mode: Seq<char>,
    pub options: Seq<Seq<char>>,
    pub result: Seq<char>,
    pub duration_ms: u64,
}

impl View for JobRecord {
    type V = JobRecordView;

    open spec fn view(&self) -> JobRecordView {
        JobRecordView {
            id: self.id@,
            timestamp: self.timestamp@,
            mode: self.mode@,
            options: texts(self.options@),
            result: self.result@,
            duration_ms: self.duration_ms,
        }
    }
}

impl Clone for JobRecord {
    fn clone(&self) -> (copy: Self)
        ensures
            copy@ == self@,
    {
        JobRecord {
            id: self.id.clone(),
            timestamp: self.timestamp.clone(),
            mode: self.mode.clone(),
            options: copy_labels(&self.options),
            result: self.result.clone(),
            duration_ms: self.duration_ms,
        }
    }
}

/// The records of `entries`, each by its view.
pub open spec fn record_views(entries: Seq<JobRecord>) -> Seq<JobRecordView> {
    entries.map_values(|r: JobRecord| r@)
}

/// The history after `record` is appended to `log`: the record goes to the
/// end, and the oldest entry leaves once the capacity is exceeded.
pub open spec fn appended(log: Seq<JobRecordView>, record: JobRecordView) -> Seq<JobRecordView> {
    let grown = log.push(record);
    if grown.len() > HISTORY_CAPACITY {
        grown.subrange(1, grown.len() as int)
    } else {
        grown
    }
}

/// The `n` newest entries of `log`, newest first; all of them where `log`
/// holds fewer.
pub open spec fn newest_first(log: Seq<JobRecordView>, n: nat) -> Seq<JobRecordView> {
    let count = if n <= log.len() { n } else { log.len() };
    Seq::new(count, |i: int| log[log.len() - 1 - i])
}

/// Insertion-ordered log of finished jobs that never holds more than
/// `HISTORY_CAPACITY` records.
pub struct ResultStore {
    entries: Vec<JobRecord>,
}

impl View for ResultStore {
    type V = Seq<JobRecordView>;

    closed spec fn view(&self) -> Seq<JobRecordView> {
        record_views(self.entries@)
    }
}

impl ResultStore {
    /// The history respects its capacity.
    pub closed spec fn wf(&self) -> bool {
        self.entries@.len() <= HISTORY_CAPACITY
    }

    /// An empty history.
    pub fn new() -> (store: Self)
        ensures
            store.wf(),
            store@ == Seq::<JobRecordView>::empty(),
    {
        let store = ResultStore { entries: Vec::new() };
        assert(store@ =~= Seq::<JobRecordView>::empty());
        store
    }

    /// Number of records held.
    pub fn len(&self) -> (n: usize)
        requires
            self.wf(),
        ensures
            n == self@.len(),
            n <= HISTORY_CAPACITY,
    {
        self.entries.len()
    }

    /// Appends `record`, evicting the oldest record when the history is full.
    pub fn append(&mut self, record: JobRecord)
        requires
            old(self).wf(),
        ensures
            final(self).wf(),
            final(self)@ == appended(old(self)@, record@),
    {
        if self.entries.len() >= HISTORY_CAPACITY {
            self.entries.remove(0);
        }
        self.entries.push(record);
        assert(self@ =~= appended(old(self)@, record@));
    }

    /// What a query of the history shows: copies of the `RECENT_WINDOW` most
    /// recently appended records, newest first.
    pub fn latest(&self) -> (out: Vec<JobRecord>)
        requires
            self.wf(),
        ensures
            record_views(out@) == newest_first(self@, RECENT_WINDOW as nat),
    {
        self.recent(RECENT_WINDOW)
    }

    /// Copies of the `n` most recently appended records, newest first.
    pub fn recent(&self, n: usize) -> (out: Vec<JobRecord>)
        requires
            self.wf(),
        ensures
            record_views(out@) == newest_first(self@, n as nat),
    {
        let len = self.entries.len();
        let count = if n <= len { n } else { len };
        let mut out: Vec<JobRecord> = Vec::new();
        let mut i: usize = 0;
        while i < count
            invariant
                len == self.entries@.len(),
                count <= len,
                i <= count,
                out@.len() == i,
                forall|k: int| 0 <= k < i ==> (#[trigger] out@[k])@ == self.entries@[len - 1 - k]@,
            decreases count - i,
        {
            out.push(self.entries[len - 1 - i].clone());
            i = i + 1;
        }
        assert(record_views(out@) =~= newest_first(self@, n as nat));
        out
    }
}

/// Appending keeps a history within its capacity: the history grows by one
/// until it is full, and the appended record is always the newest.
pub proof fn lemma_append_bounded(log: Seq<JobRecordView>, record: JobRecordView)
    requires
        log.len() <= HISTORY_CAPACITY,
    ensures
        appended(log, record).len() <= HISTORY_CAPACITY,
        appended(log, record).len() == if log.len() < HISTORY_CAPACITY {
            log.len() + 1
        } else {
            HISTORY_CAPACITY as nat
        },
        appended(log, record).last() == record,
{
}

/// Eviction is first in, first out: appending to a full history drops the
/// oldest record, moves every other record one place towards the front,
/// and puts the new record last.
pub proof fn lemma_append_evicts_oldest(log: Seq<JobRecordView>, record: JobRecordView)
    requires
        log.len() == HISTORY_CAPACITY,
    ensures
        appended(log, record) == log.drop_first().push(record),
        forall|i: int|
            0 <= i < HISTORY_CAPACITY - 1 ==> #[trigger] appended(log, record)[i] == log[i + 1],
        appended(log, record)[HISTORY_CAPACITY - 1] == record,
{
    assert(appended(log, record) =~= log.drop_first().push(record));
}

/// While a history is not full, appending evicts nothing.
pub proof fn lemma_append_keeps_all(log: Seq<JobRecordView>, record: JobRecordView)
    requires
        log.len() < HISTORY_CAPACITY,
    ensures
        appended(log, record) == log.push(record),
{
}

/// The newest-first listing holds at most `n` records, all of them where the
/// history holds no more than `n`, and its record `i` is the one that was
/// appended `i` appends before the last.
pub proof fn lemma_newest_first_order(log: Seq<JobRecordView>, n: nat)
    ensures
        newest_first(log, n).len() <= n,
        newest_first(log, n).len() == if n <= log.len() {
            n
        } else {
            log.len()
        },
        forall|i: int|
            0 <= i < newest_first(log, n).len() ==> #[trigger] newest_first(log, n)[i] == log[log.len()
                - 1 - i],
{
}

/// Listings of one history agree: the shorter one is the start of the
/// longer one.
pub proof fn lemma_newest_first_prefix(log: Seq<JobRecordView>, m: nat, n: nat)
    requires
        m <= n,
    ensures
        newest_first(log, m) == newest_first(log, n).take(newest_first(log, m).len() as int),
{
    assert(newest_first(log, m) =~= newest_first(log, n).take(newest_first(log, m).len() as int));
}

/// Read from its end, a listing is a stretch of the insertion history: the
/// last records of the history, in the order in which they were appended.
pub proof fn lemma_newest_first_is_tail(log: Seq<JobRecordView>, n: nat)
    ensures
        newest_first(log, n).reverse() == log.subrange(
            log.len() - newest_first(log, n).len(),
            log.len() as int,
        ),
{
    assert(newest_first(log, n).reverse() =~= log.subrange(
        log.len() - newest_first(log, n).len(),
        log.len() as int,
    ));
}

/// After an append the new record heads every listing, and what a listing
/// showed before follows it, one place further back.
pub proof fn lemma_newest_first_after_append(
    log: Seq<JobRecordView>,
    record: JobRecordView,
    n: nat,
)
    requires
        log.len() <= HISTORY_CAPACITY,
        n >= 1,
    ensures
        newest_first(appended(log, record), n)[0] == record,
        forall|i: int|
            1 <= i < newest_first(appended(log, record), n).len() ==> #[trigger] newest_first(
                appended(log, record),
                n,
            )[i] == newest_first(log, n)[i - 1],
{
}

} // verus!
