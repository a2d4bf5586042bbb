//! What the hub does with what an observer sends.

use vstd::prelude::*;
use crate::event::{HubEvent, HubEventView};

verus! {

/// A frame that arrived from an observer.
#[derive(Debug)]
pub enum Inbound {
    /// A text message.
    Text(String),
    /// The observer closes the connection.
    Close,
    /// Any other frame.
    Other,
}

/// What the hub does about a frame.
#[derive(Debug, PartialEq, Eq)]
pub enum Reaction {
    /// Send this event back to the observer alone.
    Reply(HubEvent),
    /// Stop reading and unregister the observer.
    Disconnect,
    /// Nothing.
    Ignore,
}

/// The event that answers the text `received`.
pub open spec fn echo_event(received: Seq<char>) -> HubEventView {
    HubEventView::Echo { received }
}

/// Decides what to do about `frame`: a text is echoed, a close ends the
/// connection, and every other frame is passed over.
pub fn react(frame: Inbound) -> (reaction: Reaction)
    ensures
        match frame {
            Inbound::Text(text) => reaction matches Reaction::Reply(event) && event@ == echo_event(
                text@,
            ),
            Inbound::Close => reaction is Disconnect,
            Inbound::Other => reaction is Ignore,
        },
{
    match frame {
        Inbound::Text(text) => Reaction::Reply(HubEvent::Echo { received: text }),
        Inbound::Close => Reaction::Disconnect,
        Inbound::Other => Reaction::Ignore,
    }
}

} // verus!
