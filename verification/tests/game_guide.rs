use sro_hud::game_guide::{selected_node, start_page_body};
use std::collections::HashSet;

use sro_hud::game_guide::{
    drawer_rows, on_row_activate, row_height, DrawerRow, GameGuideWindowState, GuideKind,
    GuideNode, CATEGORY_ARROW, CATEGORY_ROW_H, CATEGORY_TITLE, CONTENT_H, CONTENT_W, DRAWER_W,
    LEAF_LAMP, LEAF_ROW_H, LEAF_TITLE, LIST_FILL, LIST_VIEWPORT, PAGE_W,
};

/// The guide table's rows: `(enabled, id, depth, col4)`, where column 4 is a
/// category's child count and a leaf's parent.
fn index() -> Vec<GuideNode> {
    let rows: [(bool, u32, u32, u32); 7] = [
        (true, 1000, 0, 2),
        (true, 1001, 1, 1000),
        (true, 1002, 1, 1000),
        (false, 1003, 1, 1000),
        (true, 2000, 0, 1),
        (true, 2001, 1, 2000),
        (false, 3000, 0, 0),
    ];
    rows.iter()
        .map(|&(enabled, id, depth, col4)| GuideNode {
            id,
            enabled,
            kind: if depth == 0 {
                GuideKind::Category { declared_children: col4 }
            } else {
                GuideKind::Leaf { parent: col4 }
            },
        })
        .collect()
}

fn category(id: u32) -> DrawerRow {
    DrawerRow { id, category: true }
}

fn leaf(id: u32) -> DrawerRow {
    DrawerRow { id, category: false }
}

#[test]
fn collapsed_drawer_lists_only_the_enabled_categories() {
    let rows = drawer_rows(&index(), &HashSet::new());
    assert_eq!(rows, vec![category(1000), category(2000)]);
}

#[test]
fn expanding_a_category_inserts_its_own_leaves_after_it() {
    let rows = drawer_rows(&index(), &HashSet::from([1000]));
    assert_eq!(rows, vec![category(1000), leaf(1001), leaf(1002), category(2000)]);
}

#[test]
fn disabled_rows_are_loaded_but_never_drawn() {
    let nodes = index();
    assert!(nodes.iter().any(|n| n.id == 1003 && !n.enabled));
    assert!(nodes.iter().any(|n| n.id == 3000 && !n.enabled));
    let rows = drawer_rows(&nodes, &HashSet::from([1000, 3000]));
    assert!(!rows.iter().any(|r| r.id == 1003 || r.id == 3000));
}

#[test]
fn every_rect_stays_inside_the_content_area() {
    for (x, y, w, h) in [LIST_VIEWPORT, LIST_FILL] {
        assert!(x + w <= DRAWER_W && y + h <= CONTENT_H);
    }
    assert_eq!(DRAWER_W, 213);
    assert_eq!(CONTENT_W, DRAWER_W + PAGE_W);
}

#[test]
fn row_prototypes_keep_the_authored_indent_and_pitch() {
    assert_eq!(CATEGORY_ROW_H, CATEGORY_ARROW.1 * 2 + CATEGORY_ARROW.3);
    assert!(LEAF_ROW_H < CATEGORY_ROW_H);
    assert!(LEAF_TITLE.0 > CATEGORY_TITLE.0);
    assert!(LEAF_LAMP.0 + LEAF_LAMP.2 <= LEAF_TITLE.0);
    assert!(CATEGORY_TITLE.0 + CATEGORY_TITLE.2 <= LIST_VIEWPORT.2);
    assert!(LEAF_TITLE.0 + LEAF_TITLE.2 <= LIST_VIEWPORT.2);
    assert_eq!(row_height(&category(1000)), CATEGORY_ROW_H);
    assert_eq!(row_height(&leaf(1001)), LEAF_ROW_H);
}

#[test]
fn two_categories_can_be_open_at_once() {
    let rows = drawer_rows(&index(), &HashSet::from([1000, 2000]));
    assert_eq!(
        rows,
        vec![category(1000), leaf(1001), leaf(1002), category(2000), leaf(2001)]
    );
}

#[test]
fn a_category_click_toggles_and_a_leaf_click_opens_its_page() {
    let mut state = GameGuideWindowState::new();
    on_row_activate(&mut state, category(1000));
    assert!(state.expanded.contains(&1000));
    on_row_activate(&mut state, leaf(1002));
    assert_eq!(state.page, Some(1002));
    assert!(state.expanded.contains(&1000), "a leaf click leaves the drawer alone");
    on_row_activate(&mut state, category(1000));
    assert!(!state.expanded.contains(&1000));
    assert_eq!(state.page, Some(1002));
}

#[test]
fn the_page_shows_the_selected_node_or_the_start_page() {
    let nodes = index();
    assert_eq!(selected_node(&nodes, Some(1002)), Some(2));
    assert_eq!(selected_node(&nodes, Some(4242)), None);
    assert_eq!(selected_node(&nodes, None), None);
    assert_eq!(start_page_body("Welcome.", "Pick a page."), "Welcome.\n\nPick a page.");
}
