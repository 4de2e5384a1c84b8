//! The interception engine: one state, one decision per event.

use vstd::prelude::*;
use crate::chord::ChordBinding;
use crate::event::{Event, Verdict};
use crate::key::Key;
use crate::model::{initial_state, next_state, verdict_for, EngineState};
use crate::pressed::PressedKeys;
use crate::window::SuppressionWindow;

verus! {

/// The interception engine: which keys are down, whether navigation mode is
/// on, the activation chord it listens for, and the Escape guard.
pub struct Engine {
    pressed: PressedKeys,
    mode: bool,
    chord: ChordBinding,
    escape_guard: bool,
    window: SuppressionWindow,
}

impl View for Engine {
    type V = EngineState;

    closed spec fn view(&self) -> EngineState {
        EngineState {
            pressed: self.pressed@,
            mode: self.mode,
            escape_guard: self.escape_guard,
            deadline: self.window@,
        }
    }
}

impl Engine {
    /// A fresh engine. `escape_guard` says whether the Escape guard is part
    /// of it; it cannot be changed afterwards.
    pub fn new(escape_guard: bool) -> (engine: Self)
        ensures
            engine@ == initial_state(escape_guard),
    {
        Engine {
            pressed: PressedKeys::new(),
            mode: false,
            chord: ChordBinding::standard(),
            escape_guard,
            window: SuppressionWindow::idle(),
        }
    }

    /// Takes in one event that arrived at `now` (milliseconds on the
    /// caller's clock) and decides what becomes of it.
    pub fn handle(&mut self, event: Event, now: u64) -> (verdict: Verdict)
        ensures
            final(self)@ == next_state(old(self)@, event, now as int),
            verdict == verdict_for(old(self)@, event, now as int),
    {
        if self.escape_guard {
            if self.window.is_open(now) {
                if event == Event::KeyPress(Key::Escape) {
                    return Verdict::Suppress;
                }
            } else {
                self.window.clear();
            }
        }
        match event {
            Event::KeyPress(key) => {
                self.pressed.insert(key);
                if self.chord.contains(key) && self.chord.held_in(&self.pressed) {
                    self.mode = !self.mode;
                }
                if self.escape_guard && key == Key::BackQuote {
                    self.window.arm(now);
                }
            },
            Event::KeyRelease(key) => {
                self.pressed.remove(key);
            },
            Event::Other => {},
        }
        if self.mode {
            match event.remap() {
                Some(replacement) => Verdict::Replace(replacement),
                None => Verdict::Pass,
            }
        } else {
            Verdict::Pass
        }
    }

    /// Whether navigation mode is on.
    pub fn mode(&self) -> (active: bool)
        ensures
            active == self@.mode,
    {
        self.mode
    }

    /// The keys currently known to be down.
    pub fn pressed(&self) -> (pressed: &PressedKeys)
        ensures
            pressed@ == self@.pressed,
    {
        &self.pressed
    }

    /// Whether the Escape guard is part of this engine.
    pub fn escape_guard(&self) -> (enabled: bool)
        ensures
            enabled == self@.escape_guard,
    {
        self.escape_guard
    }

    /// The Escape guard's window.
    pub fn window(&self) -> (window: &SuppressionWindow)
        ensures
            window@ == self@.deadline,
    {
        &self.window
    }
}

} // verus!
