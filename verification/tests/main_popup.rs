use sro_hud::main_popup::{enforce_page_exclusivity, newly_opened, MainPopupPage, MainPopupState};

#[test]
fn the_page_that_just_opened_is_the_one_that_wins() {
    let previous = [true, false, false, false, false];
    let current = [true, false, true, false, false];
    assert_eq!(newly_opened(previous, current), Some(2));
}

#[test]
fn an_already_open_page_does_not_steal_the_frame() {
    let both = [true, false, true, false, false];
    assert_eq!(newly_opened(both, both), None);
}

#[test]
fn closing_a_page_opens_nothing() {
    let previous = [true, false, true, false, false];
    let current = [false, false, true, false, false];
    assert_eq!(newly_opened(previous, current), None);
}

/// Flags are `[inventory, character, skill, action, party]`; each frame the
/// settled flags become the next frame's `previous`.
#[test]
fn opening_a_second_page_puts_the_first_away() {
    let mut popup = MainPopupState { page: None };
    let mut flags = [false; 5];

    let mut current = flags;
    current[0] = true; // the inventory hotkey
    flags = enforce_page_exclusivity(&mut popup, flags, current);
    assert_eq!(popup.page, Some(MainPopupPage::Inventory));

    let mut current = flags;
    current[2] = true; // the skill hotkey
    flags = enforce_page_exclusivity(&mut popup, flags, current);
    assert!(!flags[0], "the inventory should have been put away");
    assert!(flags[2]);
    assert_eq!(popup.page, Some(MainPopupPage::Skill));

    let mut current = flags;
    current[2] = false;
    flags = enforce_page_exclusivity(&mut popup, flags, current);
    assert_eq!(popup.page, None);
    assert_eq!(flags, [false; 5]);
}

#[test]
fn a_quiet_frame_marks_nothing_changed() {
    let mut popup = MainPopupState { page: None };
    let flags = [false, false, false, true, false];
    let settled = enforce_page_exclusivity(&mut popup, flags, flags);
    assert_eq!(settled, flags, "nothing is written back on an idle frame");
    assert_eq!(popup.page, Some(MainPopupPage::Action));
}

#[test]
fn the_lowest_newly_opened_page_wins_a_tie() {
    let mut popup = MainPopupState { page: None };
    let settled =
        enforce_page_exclusivity(&mut popup, [false; 5], [false, true, false, false, true]);
    assert_eq!(settled, [false, true, false, false, false]);
    assert_eq!(popup.page, Some(MainPopupPage::Character));
}
