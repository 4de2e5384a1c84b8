//! What the hook hands to the engine, and what the engine hands back.

use vstd::prelude::*;
use crate::key::{arrow_of, Key};

verus! {

/// One raw input event, reduced to what the engine decides on.
#[derive(Clone, Copy, Debug, PartialEq, Eq, Structural)]
pub enum Event {
    /// A key went down.
    KeyPress(Key),
    /// A key came up.
    KeyRelease(Key),
    /// Anything that is not a key event (pointer motion, buttons, wheel).
    Other,
}

/// The engine's decision on one event.
#[derive(Clone, Copy, Debug, PartialEq, Eq, Structural)]
pub enum Verdict {
    /// Deliver the event as it came.
    Pass,
    /// Drop the event; nothing takes its place.
    Suppress,
    /// Drop the event and inject the carried key event in its place.
    Replace(Event),
}

/// The event that replaces `event` in navigation mode: a press or release
/// of W, A, S or D becomes a press or release, in that order, of the matching
/// arrow. Every other event has no replacement.
pub open spec fn remapped(event: Event) -> Option<Event> {
    match event {
        Event::KeyPress(key) => match arrow_of(key) {
            Some(arrow) => Some(Event::KeyPress(arrow)),
            None => None,
        },
        Event::KeyRelease(key) => match arrow_of(key) {
            Some(arrow) => Some(Event::KeyRelease(arrow)),
            None => None,
        },
        Event::Other => None,
    }
}

impl Event {
    /// The arrow-key event that takes this event's place in navigation mode.
    pub fn remap(self) -> (replacement: Option<Event>)
        ensures
            replacement == remapped(self),
    {
        match self {
            Event::KeyPress(key) => match key.arrow() {
                Some(arrow) => Some(Event::KeyPress(arrow)),
                None => None,
            },
            Event::KeyRelease(key) => match key.arrow() {
                Some(arrow) => Some(Event::KeyRelease(arrow)),
                None => None,
            },
            Event::Other => None,
        }
    }
}

} // verus!
