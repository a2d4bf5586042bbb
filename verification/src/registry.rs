//! The set of connected observers.

use vstd::prelude::*;
use crate::outside::fresh_identifier;

verus! {

/// One connected observer: its identifier and the channel that reaches it.
pub struct Observer<S> {
    pub id: String,
    pub channel: S,
}

/// An observer as plain mathematical values.
pub struct ObserverView<S> {
    pub id: Seq<char>,
    pub channel: S,
}

impl<S> View for Observer<S> {
    type V = ObserverView<S>;

    open spec fn view(&self) -> ObserverView<S> {
        ObserverView { id: self.id@, channel: self.channel }
    }
}

/// How one attempt to send to an observer ended.
#[derive(Debug)]
pub struct Delivery {
    pub id: String,
    pub delivered: bool,
}

/// A delivery as plain mathematical values.
pub struct DeliveryView {
    pub id: Seq<char>,
    pub delivered: bool,
}

impl View for Delivery {
    type V = DeliveryView;

    open spec fn view(&self) -> DeliveryView {
        DeliveryView { id: self.id@, delivered: self.delivered }
    }
}

/// The observers of `entries`, each by its view.
pub open spec fn observer_views<S>(entries: Seq<Observer<S>>) -> Seq<ObserverView<S>> {
    entries.map_values(|o: Observer<S>| o@)
}

/// The deliveries of `report`, each by its view.
pub open spec fn delivery_views(report: Seq<Delivery>) -> Seq<DeliveryView> {
    report.map_values(|d: Delivery| d@)
}

/// The identifiers of `labels`, each by its characters.
pub open spec fn id_views(labels: Seq<String>) -> Seq<Seq<char>> {
    labels.map_values(|s: String| s@)
}

/// No two observers of `reg` share an identifier.
pub open spec fn distinct_observers<S>(reg: Seq<ObserverView<S>>) -> bool {
    forall|i: int, j: int|
        0 <= i < j < reg.len() ==> (#[trigger] reg[i]).id != (#[trigger] reg[j]).id
}

/// An observer is registered under `id`.
pub open spec fn registered<S>(reg: Seq<ObserverView<S>>, id: Seq<char>) -> bool {
    exists|k: int| 0 <= k < reg.len() && (#[trigger] reg[k]).id == id
}

/// Where the observer `id` stands in `reg`, if `registered(reg, id)`.
pub open spec fn seat<S>(reg: Seq<ObserverView<S>>, id: Seq<char>) -> int {
    choose|k: int| 0 <= k < reg.len() && (#[trigger] reg[k]).id == id
}

/// The identifiers of `reg`, in registry order.
pub open spec fn ids_of<S>(reg: Seq<ObserverView<S>>) -> Seq<Seq<char>> {
    reg.map_values(|o: ObserverView<S>| o.id)
}

/// `reg` after `channel` is registered as `id`: it takes the seat of the
/// observer that has this identifier, or the last seat where there is none.
pub open spec fn enrolled<S>(reg: Seq<ObserverView<S>>, id: Seq<char>, channel: S) -> Seq<
    ObserverView<S>,
> {
    let observer = ObserverView { id, channel };
    if registered(reg, id) {
        reg.update(seat(reg, id), observer)
    } else {
        reg.push(observer)
    }
}

/// `reg` without the observer `id`.
pub open spec fn without<S>(reg: Seq<ObserverView<S>>, id: Seq<char>) -> Seq<ObserverView<S>> {
    if registered(reg, id) {
        reg.remove(seat(reg, id))
    } else {
        reg
    }
}

/// `report` holds a failed attempt to send to `id`.
pub open spec fn failed_in(report: Seq<DeliveryView>, id: Seq<char>) -> bool {
    exists|k: int|
        0 <= k < report.len() && (#[trigger] report[k]).id == id && !report[k].delivered
}

/// `reg` after every observer with a failed attempt in `report` has left;
/// the others keep their order.
pub open spec fn pruned<S>(reg: Seq<ObserverView<S>>, report: Seq<DeliveryView>) -> Seq<
    ObserverView<S>,
> {
    reg.filter(|o: ObserverView<S>| !failed_in(report, o.id))
}

/// In a registry with distinct identifiers, an observer's position is the
/// seat of its identifier.
pub proof fn lemma_seat_is_unique<S>(reg: Seq<ObserverView<S>>, k: int)
    requires
        distinct_observers(reg),
        0 <= k < reg.len(),
    ensures
        registered(reg, reg[k].id),
        seat(reg, reg[k].id) == k,
{
    let id = reg[k].id;
    assert(registered(reg, id));
    let s = seat(reg, id);
    assert(0 <= s < reg.len() && reg[s].id == id);
    if s < k {
        assert(reg[s].id != reg[k].id);
    } else if k < s {
        assert(reg[k].id != reg[s].id);
    }
}

/// Taking one observer out leaves the identifiers distinct.
pub proof fn lemma_remove_keeps_distinct<S>(reg: Seq<ObserverView<S>>, k: int)
    requires
        distinct_observers(reg),
        0 <= k < reg.len(),
    ensures
        distinct_observers(reg.remove(k)),
{
    let out = reg.remove(k);
    assert forall|i: int, j: int| 0 <= i < j < out.len() implies (#[trigger] out[i]).id != (
    #[trigger] out[j]).id by {
        let oi = if i < k { i } else { i + 1 };
        let oj = if j < k { j } else { j + 1 };
        assert(out[i] == reg[oi]);
        assert(out[j] == reg[oj]);
        assert(reg[oi].id != reg[oj].id);
    }
}

/// Concurrency-free core of the observer set: one channel per identifier,
/// in the order in which the identifiers were first registered.
pub struct ObserverRegistry<S> {
    entries: Vec<Observer<S>>,
}

impl<S> View for ObserverRegistry<S> {
    type V = Seq<ObserverView<S>>;

    closed spec fn view(&self) -> Seq<ObserverView<S>> {
        observer_views(self.entries@)
    }
}

/// Whether `report` holds a failed attempt to send to `id`.
pub fn has_failure(report: &Vec<Delivery>, id: &String) -> (failed: bool)
    ensures
        failed == failed_in(delivery_views(report@), id@),
{
    let ghost rv = delivery_views(report@);
    let mut k: usize = 0;
    while k < report.len()
        invariant
            k <= report@.len(),
            rv == delivery_views(report@),
            forall|j: int| 0 <= j < k ==> !((#[trigger] rv[j]).id == id@ && !rv[j].delivered),
        decreases report@.len() - k,
    {
        if !report[k].delivered && report[k].id == *id {
            assert(rv[k as int].id == id@ && !rv[k as int].delivered);
            return true;
        }
        k = k + 1;
    }
    false
}

impl<S> ObserverRegistry<S> {
    /// Every identifier occurs once.
    pub open spec fn wf(&self) -> bool {
        distinct_observers(self@)
    }

    /// A registry without observers.
    pub fn new() -> (registry: Self)
        ensures
            registry.wf(),
            registry@ == Seq::<ObserverView<S>>::empty(),
    {
        let registry = ObserverRegistry { entries: Vec::new() };
        assert(registry@ =~= Seq::<ObserverView<S>>::empty());
        registry
    }

    /// Number of registered observers.
    pub fn len(&self) -> (n: usize)
        ensures
            n == self@.len(),
    {
        self.entries.len()
    }

    /// Position of the observer `id`.
    fn find(&self, id: &String) -> (found: Option<usize>)
        requires
            self.wf(),
        ensures
            found is Some <==> registered(self@, id@),
            found is Some ==> found->0 == seat(self@, id@) && found->0 < self@.len(),
    {
        let mut k: usize = 0;
        while k < self.entries.len()
            invariant
                k <= self.entries@.len(),
                self@ == observer_views(self.entries@),
                distinct_observers(self@),
                forall|j: int| 0 <= j < k ==> (#[trigger] self@[j]).id != id@,
            decreases self.entries@.len() - k,
        {
            if self.entries[k].id == *id {
                assert(self@[k as int].id == id@);
                proof {
                    lemma_seat_is_unique(self@, k as int);
                }
                return Some(k);
            }
            k = k + 1;
        }
        None
    }

    /// Whether an observer is registered under `id`.
    pub fn contains(&self, id: &String) -> (present: bool)
        requires
            self.wf(),
        ensures
            present == registered(self@, id@),
    {
        self.find(id).is_some()
    }

    /// Registers `channel` under the identifier `id`. An observer that held
    /// this identifier is replaced, and its channel handed back.
    pub fn enroll(&mut self, id: String, channel: S) -> (replaced: Option<S>)
        requires
            old(self).wf(),
        ensures
            final(self).wf(),
            final(self)@ == enrolled(old(self)@, id@, channel),
            replaced is Some <==> registered(old(self)@, id@),
            replaced is Some ==> replaced->0 == old(self)@[seat(old(self)@, id@)].channel,
    {
        match self.find(&id) {
            Some(k) => {
                let mut observer = Observer { id, channel };
                let ghost incoming = observer@;
                self.entries.push(observer);
                let previous = self.entries.swap_remove(k);
                assert(self@ =~= old(self)@.update(k as int, incoming));
                Some(previous.channel)
            },
            None => {
                self.entries.push(Observer { id, channel });
                assert(self@ =~= enrolled(old(self)@, id@, channel));
                None
            },
        }
    }

    /// Registers `channel` under a freshly generated identifier and returns
    /// that identifier.
    pub fn register(&mut self, channel: S) -> (id: String)
        requires
            old(self).wf(),
        ensures
            final(self).wf(),
            final(self)@ == enrolled(old(self)@, id@, channel),
            registered(final(self)@, id@),
            final(self)@[seat(final(self)@, id@)].channel == channel,
    {
        let id = fresh_identifier();
        let key = id.clone();
        let ghost before = self@;
        self.enroll(key, channel);
        proof {
            if registered(before, id@) {
                let k = seat(before, id@);
                assert(self@[k].id == id@);
                lemma_seat_is_unique(self@, k);
            } else {
                let k = before.len() as int;
                assert(self@[k].id == id@);
                lemma_seat_is_unique(self@, k);
            }
        }
        id
    }

    /// Removes the observer `id` and hands its channel back. Does nothing
    /// where no observer has this identifier.
    pub fn unregister(&mut self, id: &String) -> (removed: Option<S>)
        requires
            old(self).wf(),
        ensures
            final(self).wf(),
            final(self)@ == without(old(self)@, id@),
            !registered(final(self)@, id@),
            removed is Some <==> registered(old(self)@, id@),
            removed is Some ==> removed->0 == old(self)@[seat(old(self)@, id@)].channel,
    {
        match self.find(id) {
            Some(k) => {
                let observer = self.entries.remove(k);
                proof {
                    lemma_remove_keeps_distinct(old(self)@, k as int);
                    assert(self@ =~= old(self)@.remove(k as int));
                    lemma_without_forgets(old(self)@, id@);
                }
                Some(observer.channel)
            },
            None => None,
        }
    }

    /// The channel of the observer `id`.
    pub fn channel(&self, id: &String) -> (found: Option<&S>)
        requires
            self.wf(),
        ensures
            found is Some <==> registered(self@, id@),
            found is Some ==> *found->0 == self@[seat(self@, id@)].channel,
    {
        match self.find(id) {
            Some(k) => Some(&self.entries[k].channel),
            None => None,
        }
    }

    /// The identifiers of all registered observers, in registry order: the
    /// observers to which a broadcast that starts now is addressed.
    pub fn recipients(&self) -> (ids: Vec<String>)
        ensures
            id_views(ids@) == ids_of(self@),
    {
        let mut ids: Vec<String> = Vec::new();
        let mut i: usize = 0;
        while i < self.entries.len()
            invariant
                i <= self.entries@.len(),
                ids@.len() == i,
                forall|k: int| 0 <= k < i ==> (#[trigger] ids@[k])@ == self.entries@[k].id@,
            decreases self.entries@.len() - i,
        {
            ids.push(self.entries[i].id.clone());
            i = i + 1;
        }
        assert(id_views(ids@) =~= ids_of(self@));
        ids
    }

    /// Closes a broadcast: every observer to which an attempt in `report`
    /// failed is unregistered, and all others stay as they are.
    pub fn settle(&mut self, report: &Vec<Delivery>)
        requires
            old(self).wf(),
        ensures
            final(self).wf(),
            final(self)@ == pruned(old(self)@, delivery_views(report@)),
    {
        let ghost before = self@;
        let ghost rv = delivery_views(report@);
        let ghost keep = |o: ObserverView<S>| !failed_in(rv, o.id);
        let mut k: usize = self.entries.len();
        assert(before.skip(k as int) =~= Seq::<ObserverView<S>>::empty());
        assert(before.skip(k as int).filter(keep) =~= Seq::<ObserverView<S>>::empty()) by {
            before.skip(k as int).lemma_filter_len(keep);
        }
        assert(self@ =~= before.take(k as int) + before.skip(k as int).filter(keep));
        while k > 0
            invariant
                k <= before.len(),
                before == old(self)@,
                rv == delivery_views(report@),
                keep == |o: ObserverView<S>| !failed_in(rv, o.id),
                distinct_observers(self@),
                self@ == before.take(k as int) + before.skip(k as int).filter(keep),
            decreases k,
        {
            assert(self@.len() == self.entries@.len());
            assert(self@.len() >= before.take(k as int).len());
            k = k - 1;
            let ghost kept = before.skip(k + 1).filter(keep);
            proof {
                assert(before.skip(k as int) =~= seq![before[k as int]] + before.skip(k + 1));
                before.skip(k + 1).lemma_filter_prepend(before[k as int], keep);
                assert(self@[k as int] == before[k as int]);
            }
            let ghost current = self@;
            if has_failure(report, &self.entries[k].id) {
                self.entries.remove(k);
                proof {
                    lemma_remove_keeps_distinct(current, k as int);
                    assert(self@ =~= current.remove(k as int));
                    assert(self@ =~= before.take(k as int) + kept);
                }
            } else {
                assert(self@ =~= before.take(k as int) + (seq![before[k as int]] + kept));
            }
        }
        assert(before.skip(0) =~= before);
        assert(self@ =~= before.skip(0).filter(keep));
    }
}

/// After an observer is taken out, nobody is registered under its
/// identifier.
pub proof fn lemma_without_forgets<S>(reg: Seq<ObserverView<S>>, id: Seq<char>)
    requires
        distinct_observers(reg),
    ensures
        !registered(without(reg, id), id),
{
    if registered(reg, id) {
        let k = seat(reg, id);
        let out = reg.remove(k);
        assert forall|j: int| 0 <= j < out.len() implies (#[trigger] out[j]).id != id by {
            let oj = if j < k { j } else { j + 1 };
            assert(out[j] == reg[oj]);
            if oj < k {
                assert(reg[oj].id != reg[k].id);
            } else {
                assert(reg[k].id != reg[oj].id);
            }
        }
    }
}

/// A broadcast is addressed to exactly the observers that are registered
/// when it starts.
pub proof fn lemma_recipients_are_the_registered<S>(reg: Seq<ObserverView<S>>, id: Seq<char>)
    ensures
        ids_of(reg).contains(id) <==> registered(reg, id),
{
    if ids_of(reg).contains(id) {
        let k = choose|k: int| 0 <= k < ids_of(reg).len() && ids_of(reg)[k] == id;
        assert(reg[k].id == id);
    }
    if registered(reg, id) {
        let k = seat(reg, id);
        assert(ids_of(reg)[k] == id);
    }
}

/// Failures are isolated: after a broadcast is settled, an observer to
/// which an attempt failed is no longer registered, and every other
/// observer is registered as before, with the channel it had.
pub proof fn lemma_settle_isolates_failures<S>(
    reg: Seq<ObserverView<S>>,
    report: Seq<DeliveryView>,
    id: Seq<char>,
)
    requires
        distinct_observers(reg),
    ensures
        failed_in(report, id) ==> !registered(pruned(reg, report), id),
        !failed_in(report, id) ==> (registered(pruned(reg, report), id) <==> registered(reg, id)),
        !failed_in(report, id) && registered(reg, id) ==> pruned(reg, report)[seat(
            pruned(reg, report),
            id,
        )] == reg[seat(reg, id)],
        pruned(reg, report).len() <= reg.len(),
{
    let keep = |o: ObserverView<S>| !failed_in(report, o.id);
    let after = reg.filter(keep);
    assert(after == pruned(reg, report));
    reg.lemma_filter_len(keep);
    assert forall|j: int| 0 <= j < after.len() implies keep(#[trigger] after[j]) && reg.contains(
        after[j],
    ) by {
        reg.lemma_filter_pred(keep, j);
        assert(after.contains(after[j]));
        reg.lemma_filter_contains_rev(keep, after[j]);
    }
    if registered(after, id) {
        let j = seat(after, id);
        assert(keep(after[j]));
        assert(reg.contains(after[j]));
        let m = choose|m: int| 0 <= m < reg.len() && reg[m] == after[j];
        assert(reg[m].id == id);
        lemma_seat_is_unique(reg, m);
    }
    if !failed_in(report, id) && registered(reg, id) {
        let k = seat(reg, id);
        assert(keep(reg[k]));
        reg.lemma_filter_contains(keep, k);
        let j = choose|j: int| 0 <= j < after.len() && after[j] == reg[k];
        assert(after[j].id == id);
        let s = seat(after, id);
        assert(reg.contains(after[s]));
        let m = choose|m: int| 0 <= m < reg.len() && reg[m] == after[s];
        lemma_seat_is_unique(reg, m);
    }
}

} // verus!
