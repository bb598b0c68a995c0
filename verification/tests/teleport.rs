use sro_hud::teleport::destination_name;
use sro_hud::npc_dialog::NpcDialogState;
use sro_hud::teleport::{
    card_origin, close_teleport_with_dialog, displayed_page, on_close_button, on_open_teleport,
    on_pager_click, on_teleport_line, page_count, page_slice, place_text, price_line,
    TeleportRequest, TeleportWindowState, BOARD_ORIGIN_Y, CARD_ICON_RECT, CARD_MOVE_RECT,
    CARD_PLACE_RECT, CARD_PRICE_RECT, CONTENT_H, PAGER_RECT, PRICE_FREE_KEY, PRICE_KEY,
    SLOTS_PER_PAGE, SLOT_PITCH, SLOT_RECT, SUBTITLE_KEY, TITLE_KEY,
};
use sro_hud::text::format_template;

#[test]
fn teleport_board_uses_the_title_key_not_the_subtitle_key() {
    assert_eq!(TITLE_KEY, "UIIT_PAG_TELEPORT");
    assert_eq!(SUBTITLE_KEY, "UIIT_CTL_TELEPORT_TARGET");
    assert_ne!(TITLE_KEY, SUBTITLE_KEY);
}

#[test]
fn the_board_lays_out_five_cards_on_the_authored_pitch() {
    assert_eq!(SLOTS_PER_PAGE, 5);
    assert_eq!(SLOT_PITCH, 80);
    let authored = [105, 185, 265, 345, 425];
    for (slot, top) in authored.iter().enumerate() {
        let y = SLOT_RECT.1 + slot as i32 * SLOT_PITCH + BOARD_ORIGIN_Y;
        assert_eq!(y, *top, "slot {slot}");
        assert_eq!(card_origin(slot).1 + BOARD_ORIGIN_Y, *top, "slot {slot}");
    }
    assert_eq!((SLOT_RECT.2, SLOT_RECT.3), (357, 76));
    let last_bottom = SLOT_RECT.1 + 4 * SLOT_PITCH + SLOT_RECT.3;
    assert!(last_bottom <= PAGER_RECT.1);
    assert!(PAGER_RECT.1 + PAGER_RECT.3 <= CONTENT_H);
}

#[test]
fn the_card_internals_are_the_authored_rects() {
    assert_eq!(CARD_ICON_RECT, (6, 6, 64, 64));
    assert_eq!(CARD_PLACE_RECT, (70, 14, 182, 21));
    assert_eq!(CARD_PRICE_RECT, (70, 44, 182, 21));
    assert_eq!(CARD_MOVE_RECT, (252, 20, 92, 36));
    for rect in [CARD_ICON_RECT, CARD_PLACE_RECT, CARD_PRICE_RECT, CARD_MOVE_RECT] {
        assert!(rect.0 + rect.2 <= SLOT_RECT.2);
        assert!(rect.1 + rect.3 <= SLOT_RECT.3);
    }
    assert!(CARD_PLACE_RECT.1 < CARD_PRICE_RECT.1);
    assert!(CARD_PLACE_RECT.0 + CARD_PLACE_RECT.2 <= CARD_MOVE_RECT.0);
}

#[test]
fn more_than_five_destinations_paginate() {
    let links: Vec<u32> = (0..13).collect();
    assert_eq!(page_count(links.len()), 3);
    assert_eq!(page_slice(&links, 0), &links[0..5]);
    assert_eq!(page_slice(&links, 1), &links[5..10]);
    assert_eq!(page_slice(&links, 2), &links[10..13]);
    for page in 0..page_count(links.len()) {
        assert!(page_slice(&links, page).len() <= SLOTS_PER_PAGE);
    }
    assert!(page_slice(&links, 9).is_empty());
    assert_eq!(page_count(0), 1);
    assert_eq!(page_count(5), 1);
    assert_eq!(page_count(6), 2);
}

#[test]
fn the_price_line_uses_the_paid_and_free_templates() {
    let paid = "Teleport to [%s]area. [%d]Gold";
    let free = "Teleport to [%s]area.";
    assert_eq!(format_template(paid, &["Jangan", "5000"]), "Teleport to [Jangan]area. [5000]Gold");
    assert_eq!(format_template(free, &["Jangan"]), "Teleport to [Jangan]area.");
    assert_eq!(PRICE_KEY, "UIIT_CTL_TELEPORT_RESULT");
    assert_eq!(PRICE_FREE_KEY, "UIIT_CTL_TELEPORT_FREE_RESULT");
    // the card picks the template by the fee
    assert_eq!(price_line("Jangan", 5000, paid, free), "Teleport to [Jangan]area. [5000]Gold");
    assert_eq!(price_line("Jangan", 0, paid, free), "Teleport to [Jangan]area.");
}

#[test]
fn a_placeholder_without_an_argument_stays_as_written() {
    assert_eq!(format_template("%s and %s", &["one"]), "one and %s");
    assert_eq!(format_template("100%", &[]), "100%");
}

#[test]
fn the_place_name_carries_its_level_floor() {
    assert_eq!(place_text("Donwhang", None), "Donwhang");
    assert_eq!(place_text("Donwhang", Some(20)), "Donwhang  [Lv 20+]");
}

#[test]
fn the_pager_clamps_and_the_page_shown_stays_in_range() {
    let mut state = TeleportWindowState::new();
    on_open_teleport(&mut state, 9);
    assert_eq!(state, TeleportWindowState { open_for: Some(9), page: 0 });
    on_pager_click(&mut state, -1);
    assert_eq!(state.page, 0, "no page before the first");
    on_pager_click(&mut state, 1);
    on_pager_click(&mut state, 1);
    on_pager_click(&mut state, 1);
    assert_eq!(state.page, 3);
    assert_eq!(displayed_page(state.page, page_count(13)), 2, "the last page is shown");
    assert_eq!(displayed_page(1, 3), 1);
}

#[test]
fn a_destination_click_sends_the_kind_two_request_and_closes() {
    let mut state = TeleportWindowState::new();
    on_open_teleport(&mut state, 9);
    let request = on_teleport_line(&mut state, 1234, 77);
    assert_eq!(request, TeleportRequest { npc_unique_id: 1234, kind: 2, destination_id: 77 });
    assert!(state.open_for.is_none());
}

#[test]
fn the_board_closes_with_its_dialog_or_its_button() {
    let mut state = TeleportWindowState::new();
    on_open_teleport(&mut state, 9);
    close_teleport_with_dialog(&mut state, NpcDialogState::Closed);
    assert!(state.open_for.is_none());
    on_open_teleport(&mut state, 9);
    on_close_button(&mut state);
    assert!(state.open_for.is_none());
}

#[test]
fn a_destination_reads_its_name_then_its_codename_then_its_id() {
    assert_eq!(destination_name(Some((Some("Jangan"), "GATE_CH_JANGAN")), 2), "Jangan");
    assert_eq!(destination_name(Some((None, "GATE_CH_JANGAN")), 2), "GATE_CH_JANGAN");
    assert_eq!(destination_name(None, 2), "Teleporter 2");
}
