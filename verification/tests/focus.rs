use sro_hud::focus::window_of_press;
use sro_hud::focus::{
    clear_enter_consumed, clear_esc_consumed, close_focused_window_on_esc,
    confirm_focused_dialog_on_enter, enter_pressed, focused_window, EnterConsumed, EscConsumed,
    FocusCandidate, HudFocus,
};

#[test]
fn stamps_increase_so_the_newest_window_wins() {
    let mut focus = HudFocus::new();
    let first = focus.stamp();
    let second = focus.stamp();
    assert!(second.0 > first.0);
}

#[test]
fn a_press_can_only_be_claimed_once() {
    let mut consumed = EscConsumed(false);
    assert!(consumed.claim(), "the first stage must get the press");
    assert!(!consumed.claim(), "a second stage must not also act");
    assert!(!consumed.claim());
}

#[test]
fn the_claim_does_not_survive_the_frame() {
    let mut consumed = EscConsumed(true);
    clear_esc_consumed(&mut consumed);
    assert!(!consumed.0);
    let mut enter = EnterConsumed(true);
    clear_enter_consumed(&mut enter);
    assert!(!enter.0);
    assert!(enter.claim());
}

fn window(stamp: u64, shown: bool) -> FocusCandidate {
    FocusCandidate { stamp, shown }
}

#[test]
fn the_newest_shown_window_has_the_focus() {
    let windows = [window(3, true), window(9, false), window(5, true), window(1, true)];
    assert_eq!(focused_window(&windows), Some(2));
    assert_eq!(focused_window(&[window(4, false)]), None);
    assert_eq!(focused_window(&[]), None);
}

#[test]
fn escape_closes_the_focused_window_once() {
    let windows = [window(3, true), window(5, true)];
    let mut consumed = EscConsumed(false);
    assert_eq!(close_focused_window_on_esc(true, false, false, &windows, &mut consumed), Some(1));
    assert!(consumed.0);
    // a later stage in the same frame gets nothing
    assert_eq!(close_focused_window_on_esc(true, false, false, &windows, &mut consumed), None);
}

#[test]
fn escape_belongs_to_chat_and_options_first() {
    let windows = [window(3, true)];
    let mut consumed = EscConsumed(false);
    assert_eq!(close_focused_window_on_esc(true, true, false, &windows, &mut consumed), None);
    assert_eq!(close_focused_window_on_esc(true, false, true, &windows, &mut consumed), None);
    assert_eq!(close_focused_window_on_esc(false, false, false, &windows, &mut consumed), None);
    assert!(!consumed.0, "an unused press is not claimed");
}

#[test]
fn enter_confirms_the_focused_dialog() {
    assert!(enter_pressed(true, false));
    assert!(enter_pressed(false, true));
    assert!(!enter_pressed(false, false));
    let dialogs = [window(2, true), window(7, true)];
    let mut consumed = EnterConsumed(false);
    assert_eq!(confirm_focused_dialog_on_enter(true, false, false, &dialogs, &mut consumed), Some(1));
    assert_eq!(confirm_focused_dialog_on_enter(true, false, false, &dialogs, &mut consumed), None);
}

#[test]
fn a_press_focuses_the_nearest_window_above_it() {
    // hit slot, its row, the window root, the HUD root
    assert_eq!(window_of_press(&[false, false, true, false]), Some(2));
    assert_eq!(window_of_press(&[true, true]), Some(0), "a window root itself");
    assert_eq!(window_of_press(&[false, false]), None, "outside every window");
}
