use sro_hud::npc_dialog::{
    close_on_deselect, close_on_walk_away, on_talk_started, send_close, CloseOutcome, DialogPage,
    NpcDialogState,
};

#[test]
fn talking_opens_the_option_page_for_that_npc() {
    let mut state = NpcDialogState::Closed;
    assert_eq!(state.npc(), None);
    on_talk_started(&mut state, 5);
    assert_eq!(state, NpcDialogState::Open { npc: 5, page: DialogPage::Options });
    assert_eq!(state.npc(), Some(5));
}

#[test]
fn selecting_something_else_closes_the_dialog() {
    let mut state = NpcDialogState::Closed;
    assert_eq!(close_on_deselect(&mut state, None, Some(9)), CloseOutcome::Unchanged);

    on_talk_started(&mut state, 5);
    assert_eq!(close_on_deselect(&mut state, Some(5), Some(9)), CloseOutcome::Unchanged);
    assert_eq!(state.npc(), Some(5));
    assert_eq!(
        close_on_deselect(&mut state, Some(6), Some(9)),
        CloseOutcome::Closed { send_close_to: Some(9) }
    );
    assert_eq!(state, NpcDialogState::Closed);
}

#[test]
fn walking_away_closes_and_names_the_npc() {
    let mut state = NpcDialogState::Closed;
    assert_eq!(close_on_walk_away(&mut state, Some(9), true), None);
    on_talk_started(&mut state, 5);
    assert_eq!(close_on_walk_away(&mut state, Some(9), false), None);
    assert_eq!(state.npc(), Some(5));
    assert_eq!(close_on_walk_away(&mut state, Some(9), true), Some(9));
    assert_eq!(state, NpcDialogState::Closed);
    assert_eq!(send_close(Some(9)), Some(9));
    assert_eq!(send_close(None), None);
}
