use keynav::engine::Engine;
use keynav::event::{Event, Verdict};
use keynav::key::Key;

#[test]
fn chord_needs_both_keys_held_together() {
    let mut engine = Engine::new(false);
    assert_eq!(engine.handle(Event::KeyPress(Key::KeyW), 0), Verdict::Pass);
    assert_eq!(engine.handle(Event::KeyRelease(Key::KeyW), 10), Verdict::Pass);
    assert_eq!(engine.handle(Event::KeyPress(Key::AltGr), 20), Verdict::Pass);
    assert!(!engine.mode());
    assert!(!engine.pressed().contains(Key::KeyW));
    assert!(engine.pressed().contains(Key::AltGr));
}

#[test]
fn chord_turns_mode_on_and_d_becomes_right() {
    let mut engine = Engine::new(false);
    assert_eq!(engine.handle(Event::KeyPress(Key::KeyW), 0), Verdict::Pass);
    assert!(!engine.mode());
    assert_eq!(engine.handle(Event::KeyPress(Key::AltGr), 10), Verdict::Pass);
    assert!(engine.mode());
    assert_eq!(
        engine.handle(Event::KeyPress(Key::KeyD), 20),
        Verdict::Replace(Event::KeyPress(Key::RightArrow))
    );
    assert_eq!(
        engine.handle(Event::KeyRelease(Key::KeyD), 30),
        Verdict::Replace(Event::KeyRelease(Key::RightArrow))
    );
    assert!(engine.mode());
}

#[test]
fn repeated_chord_press_toggles_back() {
    let mut engine = Engine::new(false);
    engine.handle(Event::KeyPress(Key::KeyW), 0);
    engine.handle(Event::KeyPress(Key::AltGr), 10);
    assert!(engine.mode());
    assert_eq!(engine.handle(Event::KeyPress(Key::AltGr), 20), Verdict::Pass);
    assert!(!engine.mode());
    assert_eq!(engine.pressed().len(), 2);
}

#[test]
fn escape_is_held_back_within_the_window_and_passes_after() {
    let mut engine = Engine::new(true);
    assert_eq!(engine.handle(Event::KeyPress(Key::BackQuote), 1_000), Verdict::Pass);
    assert!(engine.window().is_open(1_000));
    assert_eq!(engine.handle(Event::KeyPress(Key::Escape), 1_100), Verdict::Suppress);
    assert!(!engine.pressed().contains(Key::Escape));
    assert_eq!(engine.handle(Event::KeyPress(Key::Escape), 1_400), Verdict::Pass);
    assert!(engine.pressed().contains(Key::Escape));
    assert!(!engine.window().is_open(1_400));
}

#[test]
fn window_stays_open_after_a_suppressed_escape() {
    let mut engine = Engine::new(true);
    engine.handle(Event::KeyPress(Key::BackQuote), 0);
    assert_eq!(engine.handle(Event::KeyPress(Key::Escape), 50), Verdict::Suppress);
    assert_eq!(engine.handle(Event::KeyPress(Key::Escape), 100), Verdict::Suppress);
    assert_eq!(engine.handle(Event::KeyRelease(Key::Escape), 120), Verdict::Pass);
    assert_eq!(engine.handle(Event::KeyPress(Key::Escape), 299), Verdict::Suppress);
}

#[test]
fn window_ends_exactly_at_three_hundred_milliseconds() {
    let mut engine = Engine::new(true);
    engine.handle(Event::KeyPress(Key::BackQuote), 5_000);
    assert!(engine.window().is_open(5_299));
    assert!(!engine.window().is_open(5_300));
    assert_eq!(engine.handle(Event::KeyPress(Key::Escape), 5_299), Verdict::Suppress);
    assert_eq!(engine.handle(Event::KeyPress(Key::Escape), 5_300), Verdict::Pass);
}

#[test]
fn arm_key_refreshes_the_window() {
    let mut engine = Engine::new(true);
    engine.handle(Event::KeyPress(Key::BackQuote), 0);
    engine.handle(Event::KeyPress(Key::BackQuote), 200);
    assert_eq!(engine.handle(Event::KeyPress(Key::Escape), 450), Verdict::Suppress);
    assert_eq!(engine.handle(Event::KeyPress(Key::Escape), 500), Verdict::Pass);
}

#[test]
fn arm_key_release_does_not_arm() {
    let mut engine = Engine::new(true);
    engine.handle(Event::KeyRelease(Key::BackQuote), 0);
    assert!(!engine.window().is_open(0));
    assert_eq!(engine.handle(Event::KeyPress(Key::Escape), 10), Verdict::Pass);
}

#[test]
fn expired_window_is_cleared_by_the_next_event() {
    let mut engine = Engine::new(true);
    engine.handle(Event::KeyPress(Key::BackQuote), 1_000);
    engine.handle(Event::Other, 2_000);
    // The clock running backwards does not reopen a window that was cleared.
    assert!(!engine.window().is_open(1_100));
    assert_eq!(engine.handle(Event::KeyPress(Key::Escape), 1_100), Verdict::Pass);
}

#[test]
fn window_armed_at_the_end_of_the_clock_does_not_overflow() {
    let mut engine = Engine::new(true);
    engine.handle(Event::KeyPress(Key::BackQuote), u64::MAX - 10);
    assert!(engine.window().is_open(u64::MAX));
    assert_eq!(engine.handle(Event::KeyPress(Key::Escape), u64::MAX), Verdict::Suppress);
    assert!(engine.window().is_open(0));
}

#[test]
fn without_the_guard_escape_always_passes() {
    let mut engine = Engine::new(false);
    assert!(!engine.escape_guard());
    engine.handle(Event::KeyPress(Key::BackQuote), 0);
    assert!(!engine.window().is_open(0));
    assert_eq!(engine.handle(Event::KeyPress(Key::Escape), 1), Verdict::Pass);
    assert!(engine.pressed().contains(Key::Escape));
}

#[test]
fn guard_and_chord_work_side_by_side() {
    let mut engine = Engine::new(true);
    assert!(engine.escape_guard());
    engine.handle(Event::KeyPress(Key::AltGr), 0);
    engine.handle(Event::KeyPress(Key::KeyW), 5);
    assert!(engine.mode());
    engine.handle(Event::KeyPress(Key::BackQuote), 10);
    assert_eq!(engine.handle(Event::KeyPress(Key::Escape), 20), Verdict::Suppress);
    assert_eq!(
        engine.handle(Event::KeyPress(Key::KeyA), 30),
        Verdict::Replace(Event::KeyPress(Key::LeftArrow))
    );
    assert!(engine.mode());
}

#[test]
fn completing_press_of_w_is_itself_replaced() {
    let mut engine = Engine::new(false);
    engine.handle(Event::KeyPress(Key::AltGr), 0);
    assert_eq!(
        engine.handle(Event::KeyPress(Key::KeyW), 10),
        Verdict::Replace(Event::KeyPress(Key::UpArrow))
    );
    assert!(engine.mode());
    // W is recorded as down although its press never reached anyone.
    assert!(engine.pressed().contains(Key::KeyW));
}

#[test]
fn w_press_that_turns_mode_off_passes() {
    let mut engine = Engine::new(false);
    engine.handle(Event::KeyPress(Key::AltGr), 0);
    engine.handle(Event::KeyPress(Key::KeyW), 10);
    assert!(engine.mode());
    assert_eq!(engine.handle(Event::KeyPress(Key::KeyW), 20), Verdict::Pass);
    assert!(!engine.mode());
}

#[test]
fn stale_key_lets_a_single_press_complete_the_chord() {
    let mut engine = Engine::new(false);
    // W went down and its release was never seen.
    engine.handle(Event::KeyPress(Key::KeyW), 0);
    engine.handle(Event::KeyPress(Key::AltGr), 10_000);
    assert!(engine.mode());
    engine.handle(Event::KeyRelease(Key::AltGr), 10_100);
    assert!(engine.mode());
    engine.handle(Event::KeyPress(Key::AltGr), 20_000);
    assert!(!engine.mode());
}
