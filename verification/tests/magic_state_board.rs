use sro_hud::magic_state_board::{
    board_signature, board_slots, buff_to_cancel, needs_rebuild, slot_origin, AilmentView, BoardRow,
    GaugeSource, CURSE_Y, FREEZE_ICON, GAUGE_H, PITCH, SLOT, SLOTS, STUN_ICON,
};

fn buffs(n: usize) -> Vec<(String, Option<String>)> {
    (0..n).map(|i| (format!("SKILL_{i}"), Some(format!("icon_{i}.ddj")))).collect()
}

fn ailment(code: u32) -> AilmentView {
    AilmentView { code, icon: format!("ailment_{code}.ddj") }
}

#[test]
fn slot_metrics_match_the_authored_tree() {
    assert_eq!((SLOT, PITCH, GAUGE_H), (20, 21, 4));
    assert_eq!(SLOTS, 9, "nine authored slots per row, no wrap");
    assert_eq!(CURSE_Y, 27);
    assert_eq!(0 + SLOT, 20);
    assert_eq!(CURSE_Y + SLOT, 47);
    assert_eq!(slot_origin(BoardRow::Bless, 8), (168, 0));
    assert_eq!(slot_origin(BoardRow::Curse, 2), (42, 27));
}

#[test]
fn the_signature_keeps_the_first_nine_buffs() {
    let sig = board_signature(&buffs(12), false, true, 6);
    assert_eq!(sig.buffs.len(), SLOTS);
    assert_eq!(sig.buffs[8].0, "SKILL_8");
    assert!(sig.frozen && !sig.stunned);
    assert_eq!(sig.ailments, 6);
}

#[test]
fn the_board_rebuilds_only_on_a_change() {
    let a = board_signature(&buffs(2), false, false, 0);
    let b = board_signature(&buffs(2), false, false, 0);
    let c = board_signature(&buffs(3), false, false, 0);
    assert!(needs_rebuild(false, &a, &b), "no board yet");
    assert!(!needs_rebuild(true, &a, &b));
    assert!(needs_rebuild(true, &a, &c));
    let d = board_signature(&buffs(2), true, false, 0);
    assert!(needs_rebuild(true, &a, &d));
}

#[test]
fn buffs_fill_the_bless_row_and_flags_lead_the_curse_row() {
    let slots = board_slots(&buffs(2), true, true, &[ailment(4), ailment(5)]);
    assert_eq!(slots.len(), 6);
    assert_eq!(slots[0].row, BoardRow::Bless);
    assert_eq!(slots[1].column, 1);
    assert_eq!(slots[1].source, GaugeSource::Buff("SKILL_1".to_string()));
    assert_eq!(slots[2].source, GaugeSource::Stunned);
    assert_eq!(slots[2].icon.as_deref(), Some(STUN_ICON));
    assert_eq!((slots[2].row, slots[2].column), (BoardRow::Curse, 0));
    assert_eq!(slots[3].source, GaugeSource::Frozen);
    assert_eq!(slots[3].icon.as_deref(), Some(FREEZE_ICON));
    assert_eq!(slots[4].source, GaugeSource::Ailment(4));
    assert_eq!(slots[5].column, 3);
}

#[test]
fn the_curse_row_stops_at_nine() {
    let many: Vec<AilmentView> = (0..20).map(ailment).collect();
    let slots = board_slots(&[], true, false, &many);
    assert_eq!(slots.len(), SLOTS);
    assert_eq!(slots[0].source, GaugeSource::Stunned);
    assert_eq!(slots[8].source, GaugeSource::Ailment(7));
    assert!(slots.iter().all(|s| s.row == BoardRow::Curse));
}

#[test]
fn a_right_click_on_a_buff_cancels_it() {
    let buff = GaugeSource::Buff("SKILL_CH_COLD_GANGGI".to_string());
    assert_eq!(buff_to_cancel(true, &buff), Some("SKILL_CH_COLD_GANGGI".to_string()));
    assert_eq!(buff_to_cancel(false, &buff), None, "only the secondary button cancels");
    assert_eq!(buff_to_cancel(true, &GaugeSource::Stunned), None, "a debuff cannot be cancelled");
}
