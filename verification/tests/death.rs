use sro_hud::death::{
    cleanup_death_window, crossed_resurrect_timeout, notice_unanswered_resurrect,
    on_request_sent, on_wait_for_help_button, player_is_dead, reopen_death_window_on_corpse_click,
    sync_death_window, DeathWindowAction, GetUpRequest, PlayerDeath, ResurrectRequest, CONTENT_H,
    CONTENT_W, PRESENT_POINT_LABEL, REBIRTH_BUTTON_SIZE, REBIRTH_HEADER_SIZE,
    RESURRECT_TIMEOUT_MS, SPECIFIED_POINT_LABEL, WAIT_FOR_HELP_LABEL,
};
use sro_hud::ui_strings::UiStrings;

#[test]
fn option_labels_use_the_real_textuisystem_ids() {
    assert_eq!(PRESENT_POINT_LABEL.0, "UIIT_MSG_MSGBOX_REBIRTH_STANDING_BUTTON");
    assert_eq!(WAIT_FOR_HELP_LABEL.0, "UIIT_MSG_MSGBOX_REBIRTH_HELP_BUTTON");
    assert_eq!(SPECIFIED_POINT_LABEL.0, "UIIT_MSG_MSGBOX_REBIRTH_POINT_BUTTON");
    let strings = UiStrings::new();
    assert_eq!(
        strings.get_or(PRESENT_POINT_LABEL.0, PRESENT_POINT_LABEL.1),
        "Resurrect at the present point."
    );
    assert_eq!(
        strings.get_or(WAIT_FOR_HELP_LABEL.0, WAIT_FOR_HELP_LABEL.1),
        "Waiting for other player's help."
    );
    assert_eq!(
        strings.get_or(SPECIFIED_POINT_LABEL.0, SPECIFIED_POINT_LABEL.1),
        "Resurrect at the specified point."
    );
}

#[test]
fn rebirth_art_is_drawn_at_its_native_size() {
    assert_eq!(REBIRTH_BUTTON_SIZE, (176, 24));
    assert_eq!(REBIRTH_HEADER_SIZE, (148, 52));
    assert!(REBIRTH_BUTTON_SIZE.0 <= CONTENT_W, "buttons must fit across");
    let stacked = REBIRTH_HEADER_SIZE.1 + 3 * REBIRTH_BUTTON_SIZE.1 + 12;
    assert!(CONTENT_H >= stacked, "content {CONTENT_H} must hold the stack ({stacked})");
}

#[test]
fn unanswered_notice_fires_once_on_the_crossing_frame() {
    assert!(!crossed_resurrect_timeout(0, 16));
    assert!(crossed_resurrect_timeout(RESURRECT_TIMEOUT_MS - 10, RESURRECT_TIMEOUT_MS));
    assert!(!crossed_resurrect_timeout(RESURRECT_TIMEOUT_MS, RESURRECT_TIMEOUT_MS + 16));
}

#[test]
fn each_option_label_matches_the_byte_its_button_sends() {
    assert_eq!(GetUpRequest::return_to_town().option, 1);
    assert!(SPECIFIED_POINT_LABEL.1.contains("specified point"));
    assert_eq!(GetUpRequest::present_point().option, 2);
    assert!(PRESENT_POINT_LABEL.1.contains("present point"));
}

#[test]
fn waiting_for_help_hides_the_window_without_leaving_the_death_state() {
    let mut death = PlayerDeath::new();
    death.set_dead();
    assert!(death.window_visible());

    on_wait_for_help_button(&mut death);
    assert!(!death.window_visible());
    assert!(death.dead, "still dead -> world input stays locked");
    assert!(player_is_dead(&death));
    death.set_dead();
    assert!(!death.window_visible(), "a repeat push must not re-open it");

    death.set_alive();
    assert!(!death.dead && !death.window_hidden);
    death.set_dead();
    assert!(death.window_visible());
}

#[test]
fn a_corpse_click_reopens_a_dismissed_box() {
    let mut death = PlayerDeath::new();
    death.set_dead();
    on_wait_for_help_button(&mut death);
    reopen_death_window_on_corpse_click(&mut death, true, false);
    assert!(!death.window_visible(), "a click past the corpse does nothing");
    reopen_death_window_on_corpse_click(&mut death, false, true);
    assert!(!death.window_visible(), "no press, no reopen");
    reopen_death_window_on_corpse_click(&mut death, true, true);
    assert!(death.window_visible());
}

#[test]
fn the_window_follows_the_death_state() {
    let mut death = PlayerDeath::new();
    assert_eq!(sync_death_window(&death, false, false), DeathWindowAction::Keep);
    death.set_dead();
    assert_eq!(sync_death_window(&death, true, false), DeathWindowAction::Spawn);
    assert_eq!(sync_death_window(&death, true, true), DeathWindowAction::Keep);
    on_wait_for_help_button(&mut death);
    assert_eq!(sync_death_window(&death, true, true), DeathWindowAction::Despawn);
    cleanup_death_window(&mut death);
    assert!(!death.dead);
}

#[test]
fn the_no_answer_line_is_shown_once_per_request() {
    let mut death = PlayerDeath::new();
    death.set_dead();
    let mut pending = ResurrectRequest { waiting_ms: None };
    assert!(!notice_unanswered_resurrect(&mut pending, &death, 5000), "nothing was sent");
    on_request_sent(&mut pending);
    let mut fired = 0;
    for _ in 0..400 {
        if notice_unanswered_resurrect(&mut pending, &death, 16) {
            fired += 1;
        }
    }
    assert_eq!(fired, 1);
    death.set_alive();
    assert!(!notice_unanswered_resurrect(&mut pending, &death, 16));
    assert_eq!(pending.waiting_ms, None, "a revive stops the clock");
}
