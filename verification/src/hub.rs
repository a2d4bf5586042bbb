//! The point through which every event reaches the observers: it wraps an
//! event for the wire, names the observers it goes to, and drops those that
//! could not be reached.

use vstd::prelude::*;
use crate::event::{tag_of, Envelope, HubEvent, HubEventView};
use crate::registry::{
    delivery_views, distinct_observers, enrolled, id_views, ids_of, pruned, registered, seat, without, Delivery,
    ObserverRegistry, ObserverView,
};

verus! {

/// One broadcast before it is sent: the message, and the observers that
/// were registered when it was published.
pub struct Publication {
    pub envelope: Envelope,
    pub recipients: Vec<String>,
}

/// What a new observer is told first: its identifier, in a `connected`
/// event.
pub open spec fn welcome_event(session_id: Seq<char>) -> HubEventView {
    HubEventView::Connected { session_id }
}

/// A new connection: the identifier under which the observer is
/// registered, and the message that is sent to it alone.
pub struct Welcome {
    pub session_id: String,
    pub greeting: Envelope,
}

/// The fan-out hub over channels of type `S`.
pub struct BroadcastHub<S> {
    registry: ObserverRegistry<S>,
}

impl<S> View for BroadcastHub<S> {
    type V = Seq<ObserverView<S>>;

    closed spec fn view(&self) -> Seq<ObserverView<S>> {
        self.registry@
    }
}

impl<S> BroadcastHub<S> {
    /// Every observer identifier occurs once.
    pub open spec fn wf(&self) -> bool {
        distinct_observers(self@)
    }

    /// A hub without observers.
    pub fn new() -> (hub: Self)
        ensures
            hub.wf(),
            hub@ == Seq::<ObserverView<S>>::empty(),
    {
        BroadcastHub { registry: ObserverRegistry::new() }
    }

    /// Number of connected observers.
    pub fn observer_count(&self) -> (n: usize)
        ensures
            n == self@.len(),
    {
        self.registry.len()
    }

    /// Registers the observer behind `channel` and prepares its greeting.
    pub fn connect(&mut self, channel: S) -> (welcome: Welcome)
        requires
            old(self).wf(),
        ensures
            final(self).wf(),
            final(self)@ == enrolled(old(self)@, welcome.session_id@, channel),
            registered(final(self)@, welcome.session_id@),
            welcome.greeting.payload@ == welcome_event(welcome.session_id@),
            welcome.greeting.msg_type@ == tag_of(welcome_event(welcome.session_id@)),
    {
        let session_id = self.registry.register(channel);
        let event = HubEvent::Connected { session_id: session_id.clone() };
        Welcome { session_id, greeting: event.into_envelope() }
    }

    /// Unregisters the observer `id` and hands its channel back. Does
    /// nothing where no observer has this identifier.
    pub fn disconnect(&mut self, id: &String) -> (removed: Option<S>)
        requires
            old(self).wf(),
        ensures
            final(self).wf(),
            final(self)@ == without(old(self)@, id@),
            !registered(final(self)@, id@),
            removed is Some <==> registered(old(self)@, id@),
            removed is Some ==> removed->0 == old(self)@[seat(old(self)@, id@)].channel,
    {
        self.registry.unregister(id)
    }

    /// The channel of the observer `id`.
    pub fn channel(&self, id: &String) -> (found: Option<&S>)
        requires
            self.wf(),
        ensures
            found is Some <==> registered(self@, id@),
            found is Some ==> *found->0 == self@[seat(self@, id@)].channel,
    {
        self.registry.channel(id)
    }

    /// Wraps `event` for the wire and addresses it to every observer that is
    /// registered now.
    pub fn publish(&self, event: HubEvent) -> (publication: Publication)
        ensures
            publication.envelope.payload == event,
            publication.envelope.msg_type@ == tag_of(event@),
            id_views(publication.recipients@) == ids_of(self@),
    {
        Publication { envelope: event.into_envelope(), recipients: self.registry.recipients() }
    }

    /// Closes a broadcast: every observer to which an attempt in `report`
    /// failed is unregistered, and all others stay as they are.
    pub fn settle(&mut self, report: &Vec<Delivery>)
        requires
            old(self).wf(),
        ensures
            final(self).wf(),
            final(self)@ == pruned(old(self)@, delivery_views(report@)),
    {
        self.registry.settle(report)
    }
}

} // verus!
