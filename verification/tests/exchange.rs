use sro_hud::exchange::{
    count_label, option_label,
    action_button_press, action_enabled, on_approve_response, on_confirm_response,
    on_exchange_canceled, on_exchange_completed, on_exchange_started, on_exit_response,
    on_partner_confirmed, on_partner_gold, on_partner_items, slot_rect, CompletionOutcome,
    ExchangeAction, ExchangeSession, ExchangeSide, ExchangeState, PartnerItemsOutcome,
    EXCHANGE_SLOTS, SLOT_COLS, SLOT_PITCH, SLOT_ROWS,
};
use sro_hud::inventory::{Inventory, InventoryItem, ItemTypeData, BAG_FIRST_SLOT};

fn item(slot: u8, ref_id: u32) -> InventoryItem {
    InventoryItem { slot, ref_id, data: ItemTypeData::Expendable { stack_count: 1 } }
}

#[test]
fn approve_opens_only_after_both_sides_confirmed() {
    let mut session = ExchangeSession::new(7);
    assert!(session.can_confirm());
    assert!(!session.can_approve());

    session.partner_confirmed = true;
    assert!(!session.can_approve(), "the partner's confirm alone must not open approve");

    session.partner_confirmed = false;
    session.own_confirmed = true;
    assert!(!session.can_approve(), "our own confirm alone must not open approve");
    assert!(!session.can_confirm(), "confirm is spent once locked");
    assert!(session.awaiting_approve());
    assert!(!session.gold_editable(), "gold locks with the offer");

    session.partner_confirmed = true;
    assert!(session.can_approve());

    session.own_approved = true;
    assert!(!session.can_approve(), "approve is sent once");
}

#[test]
fn completion_lands_partner_items_in_free_bag_slots() {
    let mut inventory =
        Inventory { slots: vec![None; BAG_FIRST_SLOT as usize + 3], gold: 500 };
    inventory.slots[BAG_FIRST_SLOT as usize] = Some(item(BAG_FIRST_SLOT, 111));

    let mut session = ExchangeSession::new(7);
    session.partner_items = vec![item(4, 222), item(9, 333)];
    session.own_items = vec![item(BAG_FIRST_SLOT, 111)];
    let mut state = ExchangeState { session: Some(session) };

    let outcome = on_exchange_completed(&mut state, &mut inventory);
    assert_eq!(outcome, CompletionOutcome::Completed { placed: 2, out_of_room: false });
    assert!(state.session.is_none());

    assert_eq!(
        inventory.get(BAG_FIRST_SLOT).map(|i| i.ref_id),
        Some(222),
        "the freed slot is refilled before later ones"
    );
    assert_eq!(inventory.get(BAG_FIRST_SLOT + 1).map(|i| i.ref_id), Some(333));
    assert!(
        (0..BAG_FIRST_SLOT).all(|slot| inventory.get(slot).is_none()),
        "equipment slots must never receive a traded item"
    );
    assert_eq!(inventory.gold, 500, "gold is corrected by a separate packet, not here");
}

#[test]
fn the_partner_pane_is_the_hundreds_range_and_sits_above_ours() {
    assert_eq!(ExchangeSide::Partner.slot_id(0), 100);
    assert_eq!(ExchangeSide::Partner.slot_id(11), 111);
    assert_eq!(ExchangeSide::Own.slot_id(0), 200);
    assert_eq!(ExchangeSide::Own.slot_id(11), 211);

    let lowest_partner =
        (0..12).map(|i| slot_rect(ExchangeSide::Partner, i).1).max().unwrap();
    let highest_own = (0..12).map(|i| slot_rect(ExchangeSide::Own, i).1).min().unwrap();
    assert!(lowest_partner < highest_own, "partner pane must render above the own pane");
}

#[test]
fn slot_rects_match_the_resinfo_corners() {
    assert_eq!(slot_rect(ExchangeSide::Partner, 0), (21, 72, 32, 32));
    assert_eq!(slot_rect(ExchangeSide::Partner, 11), (201, 108, 32, 32));
    assert_eq!(slot_rect(ExchangeSide::Own, 0), (21, 215, 32, 32));
    assert_eq!(slot_rect(ExchangeSide::Own, 11), (201, 251, 32, 32));
    // the grids fill a 216 x 72 lattice (6 x 2 cells of 36)
    assert_eq!(SLOT_COLS as i32 * SLOT_PITCH, 216);
    assert_eq!(SLOT_ROWS as i32 * SLOT_PITCH, 72);
    assert_eq!(SLOT_COLS * SLOT_ROWS, EXCHANGE_SLOTS);
}

#[test]
fn a_started_exchange_opens_a_fresh_session() {
    let mut state = ExchangeState::new();
    on_exchange_started(&mut state, 42);
    let session = state.session.as_ref().unwrap();
    assert_eq!(session.partner_unique_id, 42);
    assert!(session.partner_items.is_empty() && session.own_items.is_empty());
    assert!(!session.own_confirmed && !session.partner_confirmed && !session.own_approved);
}

#[test]
fn the_confirm_and_approve_chain_runs_in_order() {
    let mut state = ExchangeState::new();
    on_exchange_started(&mut state, 42);
    assert_eq!(action_button_press(state.session.as_ref().unwrap()), ExchangeAction::Confirm);

    on_confirm_response(&mut state, false);
    assert!(!state.session.as_ref().unwrap().own_confirmed, "a refused confirm locks nothing");
    on_confirm_response(&mut state, true);
    assert!(state.session.as_ref().unwrap().own_confirmed);
    // waiting on the partner: the button is dead
    assert!(!action_enabled(state.session.as_ref().unwrap()));

    on_partner_confirmed(&mut state);
    assert!(action_enabled(state.session.as_ref().unwrap()));
    assert_eq!(action_button_press(state.session.as_ref().unwrap()), ExchangeAction::Approve);

    on_approve_response(&mut state, true);
    assert!(state.session.as_ref().unwrap().own_approved);
    assert!(!action_enabled(state.session.as_ref().unwrap()));
}

#[test]
fn partner_updates_replace_the_mirror_and_reject_strangers() {
    let mut state = ExchangeState::new();
    assert_eq!(on_partner_items(&mut state, 1, Some(vec![])), PartnerItemsOutcome::NoSession);
    assert!(!on_partner_gold(&mut state, 10), "no session, nothing to mirror");
    on_exchange_started(&mut state, 42);
    assert!(on_partner_gold(&mut state, 1_000));
    assert_eq!(state.session.as_ref().unwrap().partner_gold, 1_000);

    let outcome = on_partner_items(&mut state, 43, Some(vec![item(1, 5)]));
    assert_eq!(outcome, PartnerItemsOutcome::NotThePartner);
    assert!(state.session.as_ref().unwrap().partner_items.is_empty());
    let outcome = on_partner_items(&mut state, 42, None);
    assert_eq!(outcome, PartnerItemsOutcome::Undecoded);

    let outcome = on_partner_items(&mut state, 42, Some(vec![item(1, 5), item(2, 6)]));
    assert_eq!(outcome, PartnerItemsOutcome::Applied { over_capacity: false });
    assert_eq!(state.session.as_ref().unwrap().partner_items.len(), 2);
    let outcome = on_partner_items(&mut state, 42, Some(vec![item(3, 7)]));
    assert_eq!(outcome, PartnerItemsOutcome::Applied { over_capacity: false });
    assert_eq!(state.session.as_ref().unwrap().partner_items[0].ref_id, 7);
    assert_eq!(state.session.as_ref().unwrap().partner_items.len(), 1);
}

#[test]
fn an_oversized_partner_list_is_flagged() {
    let mut state = ExchangeState::new();
    on_exchange_started(&mut state, 42);
    let list: Vec<InventoryItem> = (0..13).map(|i| item(i, i as u32)).collect();
    let outcome = on_partner_items(&mut state, 42, Some(list));
    assert_eq!(outcome, PartnerItemsOutcome::Applied { over_capacity: true });
}

#[test]
fn cancel_and_exit_close_the_session() {
    let mut state = ExchangeState::new();
    assert!(!on_exchange_canceled(&mut state));
    on_exchange_started(&mut state, 1);
    assert!(on_exchange_canceled(&mut state));
    assert!(state.session.is_none());

    on_exchange_started(&mut state, 1);
    assert!(!on_exit_response(&mut state, false), "a refused exit keeps the trade");
    assert!(state.session.is_some());
    assert!(on_exit_response(&mut state, true));
    assert!(state.session.is_none());
}

#[test]
fn a_completion_without_a_session_changes_nothing() {
    let mut inventory = Inventory { slots: vec![None; BAG_FIRST_SLOT as usize + 1], gold: 9 };
    let mut state = ExchangeState::new();
    assert_eq!(on_exchange_completed(&mut state, &mut inventory), CompletionOutcome::NoSession);
    assert!(inventory.slots.iter().all(|s| s.is_none()));
}

#[test]
fn a_full_bag_reports_the_items_that_found_no_room() {
    let mut inventory = Inventory { slots: vec![None; BAG_FIRST_SLOT as usize + 1], gold: 0 };
    let mut session = ExchangeSession::new(7);
    session.partner_items = vec![item(0, 1), item(1, 2)];
    let mut state = ExchangeState { session: Some(session) };
    let outcome = on_exchange_completed(&mut state, &mut inventory);
    assert_eq!(outcome, CompletionOutcome::Completed { placed: 1, out_of_room: true });
    assert_eq!(inventory.get(BAG_FIRST_SLOT).map(|i| i.ref_id), Some(1));
}

#[test]
fn a_trade_slot_labels_its_count_and_reinforcement() {
    assert_eq!(count_label(ItemTypeData::Expendable { stack_count: 1 }), None);
    assert_eq!(count_label(ItemTypeData::Expendable { stack_count: 50 }), Some("50".to_string()));
    assert_eq!(count_label(ItemTypeData::MagicCube { elixir_count: 3 }), Some("3".to_string()));
    assert_eq!(count_label(ItemTypeData::Equipment { opt_level: 7 }), None);
    assert_eq!(option_label(ItemTypeData::Equipment { opt_level: 7 }), Some("+7".to_string()));
    assert_eq!(option_label(ItemTypeData::Equipment { opt_level: 0 }), None);
    assert_eq!(option_label(ItemTypeData::Other), None);
}
