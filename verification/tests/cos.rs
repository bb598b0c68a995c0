use sro_hud::cos::{
    beyond_capacity, exp_threshold, has_hunger_gauge, hunger_gauge_visible, outline_selected,
    pet_bag_transfer, pet_level, slot_height, slots_need_rebuild, stack_label,
    CosBagPage, CosKind, LevelExpTable, PetTransferRequest, CELL, COS_INVENTORY_PAGE_SLOTS,
    GRID_COLS, GRID_ROWS, HGP_FULL, INNER_BOX_RECT, LATTICE_RECT, PET_SLOT_H, SLOT_H,
};
use sro_hud::cos::BagSide::{Inventory, Pet};
use sro_hud::cos::{lattice_quarter, quarter_art, LatticeQuarter};
use sro_hud::inventory::ItemTypeData;

#[test]
fn the_lattice_rect_is_exactly_seven_by_four_shared_cells() {
    let (_, _, w, h) = LATTICE_RECT;
    assert_eq!(w / CELL, GRID_COLS as u32);
    assert_eq!(h / CELL, GRID_ROWS as u32);
    assert_eq!(w % CELL, 0);
    assert_eq!(h % CELL, 0);
    assert_eq!(GRID_COLS * GRID_ROWS, COS_INVENTORY_PAGE_SLOTS);
}

#[test]
fn the_lattice_sits_inside_the_inner_box() {
    let (bx, by, bw, bh) = INNER_BOX_RECT;
    let (lx, ly, lw, lh) = LATTICE_RECT;
    assert!(lx >= bx && ly >= by);
    assert!(lx + lw <= bx + bw);
    assert!(ly + lh <= by + bh);
}

#[test]
fn each_container_pair_maps_to_its_own_op() {
    assert_eq!(
        pet_bag_transfer(11, (Pet, 1), (Pet, 2), 5),
        Some(PetTransferRequest::PetToPet { cos_unique_id: 11, source: 1, target: 2, amount: 5 })
    );
    assert_eq!(
        pet_bag_transfer(11, (Pet, 1), (Inventory, 13), 5),
        Some(PetTransferRequest::PetToInventory {
            cos_unique_id: 11,
            pet_slot: 1,
            inventory_slot: 13
        })
    );
    assert_eq!(
        pet_bag_transfer(11, (Inventory, 13), (Pet, 1), 5),
        Some(PetTransferRequest::InventoryToPet {
            cos_unique_id: 11,
            inventory_slot: 13,
            pet_slot: 1
        })
    );
    assert_eq!(pet_bag_transfer(11, (Inventory, 1), (Inventory, 2), 1), None);
    assert_eq!(pet_bag_transfer(11, (Pet, 1), (Pet, 1), 1), None);
}

#[test]
fn pages_follow_capacity_not_the_grid() {
    assert_eq!(CosBagPage::page_count(0), 1);
    assert_eq!(CosBagPage::page_count(28), 1);
    assert_eq!(CosBagPage::page_count(29), 2);
    assert_eq!(CosBagPage::page_count(140), 5);
    let page = CosBagPage(2);
    assert_eq!(page.slot_of(0), 56);
    assert_eq!(page.slot_of(27), 83);
}

fn leveldata() -> LevelExpTable {
    LevelExpTable { exp: vec![(1, 118), (2, 320), (3, 1058)] }
}

#[test]
fn the_captured_wolf_reads_level_one_at_sixty_five_percent() {
    let level = pet_level(Some(1), None);
    assert_eq!(level, Some(1));
    let required = exp_threshold(level, &leveldata()).expect("level 1 has a threshold");
    assert_eq!(required, 118);
    let fraction = (77.0f64 / required as f64).clamp(0.0, 1.0);
    assert_eq!(format!("{:.0}%", fraction * 100.0), "65%");
    let hunger = 9_932.0f64 / HGP_FULL as f64;
    assert_eq!(format!("{:.0}%", hunger * 100.0), "99%");
}

#[test]
fn an_offset_over_the_threshold_pins_the_gauge_at_full() {
    let required = exp_threshold(Some(1), &leveldata()).unwrap();
    assert_eq!((1_180.0f64 / required as f64).clamp(0.0, 1.0), 1.0);
}

#[test]
fn a_level_off_the_end_of_the_table_leaves_the_gauge_blank() {
    assert_eq!(exp_threshold(Some(140), &leveldata()), None);
    assert_eq!(exp_threshold(Some(300), &leveldata()), None, "no row can name it");
}

#[test]
fn a_kind_without_a_growth_block_falls_back_to_characterdata() {
    assert_eq!(pet_level(None, None), None);
    assert_eq!(exp_threshold(None, &leveldata()), None);
    assert_eq!(pet_level(None, Some(12)), Some(12));
    assert_eq!(pet_level(Some(3), Some(12)), Some(3), "the wire's own level wins");
}

#[test]
fn a_zero_threshold_is_no_threshold() {
    let table = LevelExpTable { exp: vec![(5, 0)] };
    assert_eq!(exp_threshold(Some(5), &table), None);
}

#[test]
fn only_pets_get_the_hunger_gauge() {
    assert!(!has_hunger_gauge(CosKind::Vehicle));
    assert!(!has_hunger_gauge(CosKind::Transport));
    assert!(has_hunger_gauge(CosKind::GrowthPet));
    assert!(has_hunger_gauge(CosKind::GrabPet));
    assert_eq!(slot_height(CosKind::Vehicle), SLOT_H);
    assert_eq!(slot_height(CosKind::GrowthPet), PET_SLOT_H);
}

#[test]
fn an_unknown_hunger_hides_the_gauge_rather_than_emptying_it() {
    assert!(!hunger_gauge_visible(None));
    assert!(hunger_gauge_visible(Some(0)));
    assert!(hunger_gauge_visible(Some(HGP_FULL / 2)));
}

#[test]
fn the_stack_rebuilds_only_when_the_summons_change() {
    assert!(!slots_need_rebuild(&vec![7, 8], &vec![7, 8]));
    assert!(slots_need_rebuild(&vec![7, 8], &vec![8, 7]));
    assert!(slots_need_rebuild(&vec![7], &vec![7, 8]));
    assert!(slots_need_rebuild(&vec![], &vec![1]));
}

#[test]
fn the_outline_follows_the_selection() {
    assert!(outline_selected(Some(4), Some(4)));
    assert!(!outline_selected(Some(4), Some(5)));
    assert!(!outline_selected(None, None));
    assert!(!outline_selected(Some(4), None));
}

#[test]
fn only_a_real_stack_draws_its_count() {
    assert_eq!(stack_label(Some(ItemTypeData::Expendable { stack_count: 25 })), "25");
    assert_eq!(stack_label(Some(ItemTypeData::Expendable { stack_count: 1 })), "");
    assert_eq!(stack_label(Some(ItemTypeData::Equipment { opt_level: 3 })), "");
    assert_eq!(stack_label(None), "");
}

#[test]
fn cells_past_the_capacity_are_dimmed() {
    assert!(!beyond_capacity(4, 5));
    assert!(beyond_capacity(5, 5));
}

#[test]
fn the_lattice_closes_on_its_last_column_and_row() {
    assert_eq!(lattice_quarter(0), LatticeQuarter::LeftUp);
    assert_eq!(lattice_quarter(6), LatticeQuarter::RightUp);
    assert_eq!(lattice_quarter(21), LatticeQuarter::LeftDown);
    assert_eq!(lattice_quarter(27), LatticeQuarter::RightDown);
    assert_eq!(quarter_art(LatticeQuarter::RightDown), "right_down");
    assert_eq!(quarter_art(LatticeQuarter::LeftUp), "left_up");
}
