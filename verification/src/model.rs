//! The engine as plain mathematics: its state, and what one event does to it.

use vstd::prelude::*;
use crate::chord::standard_chord;
use crate::event::{remapped, Event, Verdict};
use crate::key::Key;
use crate::window::{window_open, SUPPRESSION_MILLIS};

verus! {

/// The engine's state as plain mathematics.
pub struct EngineState {
    /// The keys known to be down.
    pub pressed: Set<Key>,
    /// Whether navigation mode is on.
    pub mode: bool,
    /// Whether the Escape guard is part of this engine.
    pub escape_guard: bool,
    /// Until when Escape is suppressed, in milliseconds, if the guard is armed.
    pub deadline: Option<int>,
}

/// The state of a fresh engine: no key down, navigation mode off, the guard
/// not armed.
pub open spec fn initial_state(escape_guard: bool) -> EngineState {
    EngineState {
        pressed: Set::empty(),
        mode: false,
        escape_guard,
        deadline: None,
    }
}

/// Whether the Escape guard swallows `event` at `now`: the guard is part of
/// the engine, its window is open, and the event is Escape going down.
pub open spec fn escape_blocked(state: EngineState, event: Event, now: int) -> bool {
    &&& state.escape_guard
    &&& window_open(state.deadline, now)
    &&& event == Event::KeyPress(Key::Escape)
}

/// The keys down once `event` is taken in: a press adds its key, a release
/// takes its key away, anything else leaves the set alone.
pub open spec fn pressed_after(pressed: Set<Key>, event: Event) -> Set<Key> {
    match event {
        Event::KeyPress(key) => pressed.insert(key),
        Event::KeyRelease(key) => pressed.remove(key),
        Event::Other => pressed,
    }
}

/// Whether `event`, arriving while `pressed` are down, completes the chord:
/// it is a press of a chord key, and with that key down every chord key is
/// down.
pub open spec fn completes_chord(pressed: Set<Key>, event: Event) -> bool {
    &&& event matches Event::KeyPress(key)
    &&& standard_chord().contains(key)
    &&& standard_chord().subset_of(pressed.insert(key))
}

/// The guard's deadline once `event` is taken in at `now`. Without the guard
/// nothing ever changes. With it, the arm key (BackQuote) going down sets the
/// deadline to `now + SUPPRESSION_MILLIS`; otherwise an open window stays
/// and one that is over is cleared.
pub open spec fn deadline_after(state: EngineState, event: Event, now: int) -> Option<int> {
    if !state.escape_guard {
        state.deadline
    } else if event == Event::KeyPress(Key::BackQuote) {
        Some(now + SUPPRESSION_MILLIS)
    } else if window_open(state.deadline, now) {
        state.deadline
    } else {
        None
    }
}

/// The state after `event` arrives at `now`.
///
/// An event the Escape guard swallows changes nothing. Any other event
/// updates the keys down, flips navigation mode if it completes the chord,
/// and moves the guard's deadline. The guard setting never changes.
pub open spec fn next_state(state: EngineState, event: Event, now: int) -> EngineState {
    if escape_blocked(state, event, now) {
        state
    } else {
        EngineState {
            pressed: pressed_after(state.pressed, event),
            mode: state.mode != completes_chord(state.pressed, event),
            escape_guard: state.escape_guard,
            deadline: deadline_after(state, event, now),
        }
    }
}

/// The decision on `event` arriving at `now`.
///
/// An event the Escape guard swallows is suppressed. Otherwise, if
/// navigation mode is on once the event's chord check is done and the event
/// has an arrow-key replacement, it is replaced by it. Everything else
/// passes.
pub open spec fn verdict_for(state: EngineState, event: Event, now: int) -> Verdict {
    if escape_blocked(state, event, now) {
        Verdict::Suppress
    } else if next_state(state, event, now).mode {
        match remapped(event) {
            Some(replacement) => Verdict::Replace(replacement),
            None => Verdict::Pass,
        }
    } else {
        Verdict::Pass
    }
}

} // verus!
