//! What holds of the engine on every state and every event.
//!
//! Each law is stated over the engine's model (`next_state`, `verdict_for`),
//! the same functions that `Engine::handle` promises to follow.

use vstd::prelude::*;
use crate::chord::standard_chord;
use crate::model::{
    completes_chord, escape_blocked, next_state, pressed_after, verdict_for, EngineState,
};
use crate::event::{remapped, Event, Verdict};
use crate::key::{arrow_of, Key};
use crate::window::SUPPRESSION_MILLIS;

verus! {

/// Whether `first` and `second` are the two keys of the standard chord, in
/// either order.
pub open spec fn chord_pair(first: Key, second: Key) -> bool {
    ||| first == Key::KeyW && second == Key::AltGr
    ||| first == Key::AltGr && second == Key::KeyW
}

/// Releasing a key that is not down leaves the set of keys down as it was.
pub proof fn release_of_absent_key_keeps_set(pressed: Set<Key>, key: Key)
    requires
        !pressed.contains(key),
    ensures
        pressed_after(pressed, Event::KeyRelease(key)) == pressed,
{
    assert(pressed.remove(key) =~= pressed);
}

/// Releasing a key that is not down changes neither the keys down nor
/// navigation mode, and a second release of a key changes nothing the first
/// did not.
pub proof fn release_is_idempotent(state: EngineState, key: Key, now: int, later: int)
    ensures
        !state.pressed.contains(key) ==> {
            let after = next_state(state, Event::KeyRelease(key), now);
            after.pressed == state.pressed && after.mode == state.mode
        },
        ({
            let once = next_state(state, Event::KeyRelease(key), now);
            let twice = next_state(once, Event::KeyRelease(key), later);
            twice.pressed == once.pressed && twice.mode == once.mode
        }),
{
    let once = next_state(state, Event::KeyRelease(key), now);
    assert(once.pressed.remove(key) =~= once.pressed);
    if !state.pressed.contains(key) {
        assert(state.pressed.remove(key) =~= state.pressed);
    }
}

/// Navigation mode flips on an event exactly when that event completes the
/// chord: a press of a chord key with every chord key then down.
pub proof fn mode_flips_exactly_on_completing_press(state: EngineState, event: Event, now: int)
    ensures
        next_state(state, event, now).mode != state.mode <==> completes_chord(
            state.pressed,
            event,
        ),
{
    assert(!standard_chord().contains(Key::Escape));
}

/// A release never flips navigation mode, whichever key comes up.
pub proof fn release_never_toggles(state: EngineState, key: Key, now: int)
    ensures
        next_state(state, Event::KeyRelease(key), now).mode == state.mode,
{
}

/// A press of a key outside the chord never flips navigation mode.
pub proof fn press_outside_chord_never_toggles(state: EngineState, key: Key, now: int)
    requires
        !standard_chord().contains(key),
    ensures
        next_state(state, Event::KeyPress(key), now).mode == state.mode,
{
}

/// An event that is not a key event never flips navigation mode.
pub proof fn non_key_event_never_toggles(state: EngineState, now: int)
    ensures
        next_state(state, Event::Other, now).mode == state.mode,
{
}

/// While every other chord key is down, each press of a chord key flips
/// navigation mode once, however often it is repeated.
pub proof fn each_completing_press_toggles_once(state: EngineState, key: Key, now: int)
    requires
        standard_chord().contains(key),
        standard_chord().remove(key).subset_of(state.pressed),
    ensures
        next_state(state, Event::KeyPress(key), now).mode == !state.mode,
        standard_chord().subset_of(next_state(state, Event::KeyPress(key), now).pressed),
{
    assert(!standard_chord().contains(Key::Escape));
    assert forall|k: Key| standard_chord().contains(k) implies #[trigger] state.pressed.insert(
        key,
    ).contains(k) by {
        if k != key {
            assert(standard_chord().remove(key).contains(k));
        }
    }
}

/// Pressing the two chord keys one after the other, in either order: the
/// second press always flips navigation mode, and the first flips it only if
/// the other key was already down. So from a state in which the second key is
/// up, the pair flips navigation mode exactly once, on the second press.
pub proof fn chord_toggles_once_in_either_order(
    state: EngineState,
    first: Key,
    second: Key,
    now: int,
    later: int,
)
    requires
        chord_pair(first, second),
    ensures
        ({
            let between = next_state(state, Event::KeyPress(first), now);
            let after = next_state(between, Event::KeyPress(second), later);
            &&& between.mode != state.mode <==> state.pressed.contains(second)
            &&& after.mode != between.mode
            &&& !state.pressed.contains(second) ==> after.mode != state.mode
        }),
{
    assert(standard_chord().contains(Key::KeyW));
    assert(standard_chord().contains(Key::AltGr));
    let between = next_state(state, Event::KeyPress(first), now);
    assert(between.pressed.contains(first));
    assert forall|k: Key| standard_chord().contains(k) implies #[trigger] between.pressed.insert(
        second,
    ).contains(k) by {
        assert(k == first || k == second);
    }
    if state.pressed.contains(second) {
        assert forall|k: Key| standard_chord().contains(k) implies #[trigger] state.pressed.insert(
            first,
        ).contains(k) by {
            assert(k == first || k == second);
        }
    } else {
        assert(!state.pressed.insert(first).contains(second));
    }
}

/// With navigation mode on once the event's chord check is done, a press of
/// W, A, S or D is replaced by a press of Up, Left, Down or Right, and a
/// release by the matching release. The event itself never passes.
pub proof fn directional_key_is_replaced_in_mode(
    state: EngineState,
    key: Key,
    arrow: Key,
    now: int,
)
    requires
        arrow_of(key) == Some(arrow),
    ensures
        next_state(state, Event::KeyPress(key), now).mode ==> verdict_for(
            state,
            Event::KeyPress(key),
            now,
        ) == Verdict::Replace(Event::KeyPress(arrow)),
        next_state(state, Event::KeyRelease(key), now).mode ==> verdict_for(
            state,
            Event::KeyRelease(key),
            now,
        ) == Verdict::Replace(Event::KeyRelease(arrow)),
{
}

/// With navigation mode on before the event, and the event not completing
/// the chord, a directional key event is replaced by its arrow-key event.
pub proof fn directional_key_is_replaced_while_mode_stays_on(
    state: EngineState,
    event: Event,
    now: int,
)
    requires
        state.mode,
        !completes_chord(state.pressed, event),
        remapped(event) is Some,
    ensures
        verdict_for(state, event, now) == Verdict::Replace(remapped(event)->0),
        next_state(state, event, now).mode,
{
}

/// With navigation mode off once the event's chord check is done, every
/// event the Escape guard does not swallow passes unchanged.
pub proof fn everything_passes_outside_mode(state: EngineState, event: Event, now: int)
    requires
        !next_state(state, event, now).mode,
        !escape_blocked(state, event, now),
    ensures
        verdict_for(state, event, now) == Verdict::Pass,
{
}

/// With navigation mode off before the event, an event that neither
/// completes the chord nor is swallowed by the Escape guard passes unchanged,
/// and navigation mode stays off.
pub proof fn everything_passes_while_mode_stays_off(state: EngineState, event: Event, now: int)
    requires
        !state.mode,
        !completes_chord(state.pressed, event),
        !escape_blocked(state, event, now),
    ensures
        verdict_for(state, event, now) == Verdict::Pass,
        !next_state(state, event, now).mode,
{
}

/// An event that is not about W, A, S or D is never replaced, whether
/// navigation mode is on or off: it passes, unless the Escape guard swallows
/// it.
pub proof fn other_keys_are_never_replaced(state: EngineState, event: Event, now: int)
    requires
        remapped(event) is None,
    ensures
        verdict_for(state, event, now) == if escape_blocked(state, event, now) {
            Verdict::Suppress
        } else {
            Verdict::Pass
        },
        !(verdict_for(state, event, now) is Replace),
{
}

/// Whatever the state, a replacement is the arrow-key event of the event it
/// replaces, and only the Escape guard suppresses without replacing.
pub proof fn verdict_is_one_of_three(state: EngineState, event: Event, now: int)
    ensures
        match verdict_for(state, event, now) {
            Verdict::Pass => !escape_blocked(state, event, now),
            Verdict::Suppress => escape_blocked(state, event, now),
            Verdict::Replace(replacement) => remapped(event) == Some(replacement)
                && next_state(state, event, now).mode,
        },
{
}

/// Once the arm key has gone down at `armed`, Escape going down at `now` is
/// swallowed exactly when the engine has the guard and `now` is less than
/// `SUPPRESSION_MILLIS` after `armed`. A swallowed Escape leaves the state
/// as it was, so the window stays open for the next one.
pub proof fn escape_is_swallowed_exactly_inside_the_window(
    state: EngineState,
    armed: int,
    now: int,
)
    ensures
        ({
            let ready = next_state(state, Event::KeyPress(Key::BackQuote), armed);
            let escape = Event::KeyPress(Key::Escape);
            &&& verdict_for(ready, escape, now) == Verdict::Suppress <==> state.escape_guard && now
                < armed + SUPPRESSION_MILLIS
            &&& verdict_for(ready, escape, now) == Verdict::Suppress ==> next_state(
                ready,
                escape,
                now,
            ) == ready
        }),
{
}

/// No event changes the guard setting; without the guard no event touches
/// the deadline; and finitely many keys down stay finitely many.
pub proof fn configuration_is_fixed(state: EngineState, event: Event, now: int)
    ensures
        next_state(state, event, now).escape_guard == state.escape_guard,
        !state.escape_guard ==> next_state(state, event, now).deadline == state.deadline,
        state.pressed.finite() ==> next_state(state, event, now).pressed.finite(),
{
}

} // verus!
