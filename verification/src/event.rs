//! The events that the hub pushes to observers, and their envelope.

use vstd::prelude::*;
use crate::text::texts;

verus! {

/// A domain event. Each variant holds the payload of its message.
#[derive(Debug, PartialEq, Eq)]
pub enum HubEvent {
    /// First message on a new connection.
    Connected { session_id: String },
    /// Answer to any text that an observer sends.
    Echo { received: String },
    /// A job has started.
    SpinStart { spin_id: String, options: Vec<String>, mode: String },
    /// A job has reached tick `tick` out of `total_ticks`. The progress of
    /// the job is the fraction `tick / total_ticks`.
    SpinTick {
        spin_id: String,
        highlight_index: usize,
        current_option: String,
        tick: usize,
        total_ticks: usize,
    },
    /// A job has finished.
    SpinComplete { spin_id: String, result: String, duration_ms: u64 },
}

/// An event as plain mathematical values.
pub enum HubEventView {
    Connected { session_id: Seq<char> },
    Echo { received: Seq<char> },
    SpinStart { spin_id: Seq<char>, options: Seq<Seq<char>>, mode: Seq<char> },
    SpinTick {
        spin_id: Seq<char>,
        highlight_index: nat,
        current_option: Seq<char>,
        tick: nat,
        total_ticks: nat,
    },
    SpinComplete { spin_id: Seq<char>, result: Seq<char>, duration_ms: u64 },
}

impl View for HubEvent {
    type V = HubEventView;

    open spec fn view(&self) -> HubEventView {
        match *self {
            HubEvent::Connected { session_id } => HubEventView::Connected {
                session_id: session_id@,
            },
            HubEvent::Echo { received } => HubEventView::Echo { received: received@ },
            HubEvent::SpinStart { spin_id, options, mode } => HubEventView::SpinStart {
                spin_id: spin_id@,
                options: texts(options@),
                mode: mode@,
            },
            HubEvent::SpinTick {
                spin_id,
                highlight_index,
                current_option,
                tick,
                total_ticks,
            } => HubEventView::SpinTick {
                spin_id: spin_id@,
                highlight_index: highlight_index as nat,
                current_option: current_option@,
                tick: tick as nat,
                total_ticks: total_ticks as nat,
            },
            HubEvent::SpinComplete { spin_id, result, duration_ms } => HubEventView::SpinComplete {
                spin_id: spin_id@,
                result: result@,
                duration_ms,
            },
        }
    }
}

/// The type tag under which `event` travels.
pub open spec fn tag_of(event: HubEventView) -> Seq<char> {
    match event {
        HubEventView::Connected { .. } => "connected"@,
        HubEventView::Echo { .. } => "echo"@,
        HubEventView::SpinStart { .. } => "spin_start"@,
        HubEventView::SpinTick { .. } => "spin_tick"@,
        HubEventView::SpinComplete { .. } => "spin_complete"@,
    }
}

/// A message as it goes on the wire: the type tag and the payload.
#[derive(Debug, PartialEq, Eq)]
pub struct Envelope {
    pub msg_type: String,
    pub payload: HubEvent,
}

impl HubEvent {
    /// The type tag of this event.
    pub fn type_tag(&self) -> (tag: &'static str)
        ensures
            tag@ == tag_of(self@),
    {
        match self {
            HubEvent::Connected { .. } => "connected",
            HubEvent::Echo { .. } => "echo",
            HubEvent::SpinStart { .. } => "spin_start",
            HubEvent::SpinTick { .. } => "spin_tick",
            HubEvent::SpinComplete { .. } => "spin_complete",
        }
    }

    /// Wraps this event for the wire.
    pub fn into_envelope(self) -> (envelope: Envelope)
        ensures
            envelope.payload == self,
            envelope.msg_type@ == tag_of(self@),
    {
        let msg_type = self.type_tag().to_owned();
        Envelope { msg_type, payload: self }
    }
}

} // verus!
