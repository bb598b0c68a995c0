use sro_hud::free_pvp::{art_path, sync_free_pvp_state, toggle_expanded, FreePvpState, FreePvpTeam};

#[test]
fn the_wire_byte_maps_to_the_declared_order() {
    assert_eq!(FreePvpTeam::from_wire(0), None);
    for (byte, team) in (1u8..).zip(FreePvpTeam::all()) {
        assert_eq!(FreePvpTeam::from_wire(byte), Some(team));
        assert_eq!(FreePvpTeam::to_wire(Some(team)), byte);
    }
    assert_eq!(FreePvpTeam::from_wire(6), None);
    assert_eq!(FreePvpTeam::from_wire(0xFF), None);
    assert_eq!(FreePvpTeam::to_wire(None), 0);
}

#[test]
fn a_row_takes_its_team_from_its_art() {
    assert_eq!(FreePvpTeam::from_art("frpvp\\frpvp_gray.ddj"), Some(FreePvpTeam::Gray));
    assert_eq!(FreePvpTeam::from_art("FRPVP\\FRPVP_BLUE.DDJ"), Some(FreePvpTeam::Blue));
    assert_eq!(
        FreePvpTeam::from_art("interface/frpvp/frpvp_yellow.ddj"),
        Some(FreePvpTeam::Yellow)
    );
    assert_eq!(FreePvpTeam::from_art("frpvp\\frpvp_frame01.ddj"), None);
    assert_eq!(FreePvpTeam::from_art("frpvp\\frpvp_button.ddj"), None);
    assert_eq!(FreePvpTeam::from_art(""), None);
}

#[test]
fn art_paths_are_media_relative_and_forward_slashed() {
    assert_eq!(art_path("frpvp\\frpvp_frame02.ddj"), "media://interface/frpvp/frpvp_frame02.ddj");
    assert_eq!(
        art_path("ifcommon\\com_m_button02.ddj"),
        "media://interface/ifcommon/com_m_button02.ddj"
    );
}

#[test]
fn each_state_has_its_own_art_and_string() {
    let mut stems: Vec<&str> = FreePvpTeam::all().iter().map(|t| t.art_stem()).collect();
    stems.sort_unstable();
    stems.dedup();
    assert_eq!(stems.len(), 5);
    let mut keys: Vec<&str> = FreePvpTeam::all().iter().map(|t| t.string_key()).collect();
    keys.sort_unstable();
    keys.dedup();
    assert_eq!(keys.len(), 5);
    assert_eq!(FreePvpTeam::Yellow.string_key(), "UIIT_STT_FRPVP_YELLOW");
}

#[test]
fn the_panel_follows_the_wire_byte() {
    let mut state = FreePvpState::new();
    assert!(!state.visible());
    state.team = FreePvpTeam::from_wire(2);
    assert!(state.visible());
    assert_eq!(state.team, Some(FreePvpTeam::Gray));
    state.team = FreePvpTeam::from_wire(0);
    assert!(!state.visible());
}

#[test]
fn every_team_reads_back_from_its_own_art() {
    for team in FreePvpTeam::all() {
        let art = format!("frpvp\\{}.ddj", team.art_stem());
        assert_eq!(FreePvpTeam::from_art(&art), Some(team));
    }
}

#[test]
fn a_repeated_extension_is_trimmed_too() {
    assert_eq!(FreePvpTeam::from_art("frpvp_red.ddj.ddj"), Some(FreePvpTeam::Red));
}

#[test]
fn the_panel_state_follows_the_character_and_toggles() {
    let mut state = FreePvpState::new();
    sync_free_pvp_state(&mut state, Some(3));
    assert_eq!(state.team, Some(FreePvpTeam::Blue));
    assert!(state.expanded, "a panel that just appeared starts expanded");
    toggle_expanded(&mut state);
    assert!(!state.expanded);
    sync_free_pvp_state(&mut state, Some(3));
    assert!(!state.expanded, "the same team keeps the collapse");
    sync_free_pvp_state(&mut state, Some(1));
    assert!(state.expanded, "a team change resets it");
    sync_free_pvp_state(&mut state, Some(0));
    assert_eq!(state.team, None);
    assert!(!state.expanded);
}
