//! Exercises the lifecycle rules: intent translation, the quit confirmation
//! gate, and the hide-on-close policy.

use stasis::lifecycle::intent_of_menu_id;
use stasis::lifecycle::on_close_requested;
use stasis::lifecycle::on_confirmation;
use stasis::lifecycle::on_intent;
use stasis::lifecycle::Directive;
use stasis::lifecycle::Intent;
use stasis::supervisor::SpawnOutcome;
use stasis::supervisor::Supervisor;

#[test]
fn menu_identifiers_map_to_intents() {
    assert_eq!(intent_of_menu_id("open"), Some(Intent::Open));
    assert_eq!(intent_of_menu_id("close"), Some(Intent::Hide));
    assert_eq!(intent_of_menu_id("quit"), Some(Intent::Quit));
}

#[test]
fn unknown_menu_identifier_means_nothing() {
    assert_eq!(intent_of_menu_id("settings"), None);
    assert_eq!(intent_of_menu_id(""), None);
    assert_eq!(intent_of_menu_id("OPEN"), None);
}

#[test]
fn open_intent_shows_the_window() {
    assert_eq!(on_intent(Intent::Open), Directive::ShowWindow);
}

#[test]
fn hide_intent_hides_the_window() {
    assert_eq!(on_intent(Intent::Hide), Directive::HideWindow);
}

#[test]
fn quit_intent_asks_for_confirmation() {
    let d = on_intent(Intent::Quit);
    match d {
        Directive::Confirm(req) => {
            assert_eq!(req.title, "Quit Stasis?");
            assert_eq!(
                req.body,
                "Quitting Stasis will immediately stop all activity tracking and digital wellbeing monitoring.\n\nAre you sure you want to exit?"
            );
        }
        other => panic!("quit must ask for confirmation, got {:?}", other),
    }
}

#[test]
fn negative_confirmation_changes_nothing() {
    // Scenario: occupied slot, quit intent, the human answers no — the
    // worker keeps running and the application does not exit.
    let mut s = Supervisor::new();
    s.start("bin/worker".to_string(), SpawnOutcome::Launched(3))
        .unwrap();
    assert!(matches!(on_intent(Intent::Quit), Directive::Confirm(_)));
    let plan = on_confirmation(&mut s, false);
    assert!(plan.is_none());
    assert!(s.is_occupied());
    assert_eq!(s.tracked_worker(), Some(3));
}

#[test]
fn affirmative_confirmation_stops_once_and_exits_zero() {
    // Scenario: occupied slot, quit intent, the human answers yes — one
    // stop, the tracked worker handed over for reaping, exit status 0.
    let mut s = Supervisor::new();
    s.start("bin/worker".to_string(), SpawnOutcome::Launched(3))
        .unwrap();
    let plan = on_confirmation(&mut s, true).expect("a confirmed quit must produce a plan");
    assert_eq!(plan.reap, Some(3));
    assert_eq!(plan.exit_code, 0);
    assert!(!s.is_occupied());
}

#[test]
fn affirmative_confirmation_with_empty_slot_still_exits_zero() {
    let mut s = Supervisor::new();
    let plan = on_confirmation(&mut s, true).unwrap();
    assert_eq!(plan.reap, None);
    assert_eq!(plan.exit_code, 0);
    assert!(!s.is_occupied());
}

#[test]
fn window_close_hides_and_never_destroys() {
    // A window-close event hides the window and vetoes the close; the
    // supervisor is not involved and the application does not exit.
    let mut s = Supervisor::new();
    s.start("bin/worker".to_string(), SpawnOutcome::Launched(8))
        .unwrap();
    let r = on_close_requested();
    assert!(r.hide_window);
    assert!(r.prevent_close);
    assert_eq!(s.tracked_worker(), Some(8));
}
