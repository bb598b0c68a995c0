use sro_hud::guild::{
    cell_text, clipped_width, command_keys, field_text, notice_text, on_guild_invite,
    on_notice_confirm, on_notice_subject, online_dot, row_member, GuildAction, GuildData,
    GuildInfoField, GuildMember, GuildNoticeField, GuildNoticeOpen, RosterColumn,
    COMMAND_SLOT5_DEFAULT, COMMAND_SLOT5_POSITION_GRANT, COMMAND_SLOT_INVITE, EMPTY, OFFLINE_DOT,
    ONLINE_DOT,
};

fn member(name: &str, is_master: bool) -> GuildMember {
    GuildMember {
        member_id: 1,
        name: name.to_string(),
        level: 40,
        guild_points: 0,
        is_master,
        is_offline: false,
    }
}

fn record() -> GuildData {
    GuildData {
        guild_id: 7,
        name: "Roadmen".to_string(),
        level: 3,
        guild_points: 12_345,
        notice: String::new(),
        message: String::new(),
        member_count: 2,
        members: vec![member("Grunt", false), member("Master", true)],
    }
}

#[test]
fn roster_cells_bind_the_member_record_and_leave_grade_blank() {
    let members = record().members;
    let grunt = members.first();
    assert_eq!(cell_text(RosterColumn::Name, grunt), "Grunt");
    assert_eq!(cell_text(RosterColumn::Level, grunt), "40");
    assert_eq!(cell_text(RosterColumn::DonatedGp, grunt), "0");
    assert_eq!(cell_text(RosterColumn::Grade, grunt), "");
    for column in
        [RosterColumn::Name, RosterColumn::Level, RosterColumn::Grade, RosterColumn::DonatedGp]
    {
        assert_eq!(cell_text(column, None), "");
    }
}

#[test]
fn notice_strip_shows_the_title_and_the_pane_the_body() {
    let mut data = record();
    data.notice = "Server maintenance".to_string();
    data.message = "We move at 20:00.".to_string();
    assert_eq!(notice_text(GuildNoticeField::Subject, Some(&data)), "Server maintenance");
    assert_eq!(notice_text(GuildNoticeField::Body, Some(&data)), "We move at 20:00.");
    assert_eq!(notice_text(GuildNoticeField::Subject, None), "");
    assert_eq!(notice_text(GuildNoticeField::Body, None), "");
}

#[test]
fn the_live_command_slot_is_the_join_button() {
    assert_eq!(command_keys(false)[COMMAND_SLOT_INVITE].0, "UIIT_STT_GUILD_JOIN");
    assert_eq!(command_keys(true)[COMMAND_SLOT_INVITE].0, "UIIT_STT_GUILD_JOIN");
}

#[test]
fn slot_five_draws_exactly_one_of_the_two_colliding_buttons() {
    let default = command_keys(false);
    let flagged = command_keys(true);
    assert_eq!(default.len(), 5);
    assert_eq!(flagged.len(), 5);
    assert_eq!(default[..4], flagged[..4]);
    assert_eq!(default[4], COMMAND_SLOT5_DEFAULT);
    assert_eq!(flagged[4], COMMAND_SLOT5_POSITION_GRANT);
    assert_ne!(default[4], flagged[4]);
}

#[test]
fn command_captions_are_the_ifguild_string_keys() {
    let keys: Vec<&str> = command_keys(false)
        .iter()
        .chain(std::iter::once(&COMMAND_SLOT5_POSITION_GRANT))
        .map(|(key, _)| *key)
        .collect();
    assert_eq!(
        keys,
        vec![
            "UIIT_STT_GUILD_JOIN",
            "UIIT_CTL_AUTHORITY_GRANT",
            "UIIT_STT_GUILD_EXPULSION",
            "UIIT_STT_GUILD_EXIT",
            "UIIT_STT_GUILD_NAME_GRANT",
            "UIIT_CTL_GUILD_POSITION_GRANT",
        ]
    );
}

#[test]
fn only_the_two_documented_guild_statics_overflow_the_page() {
    // the window art at x 6 (588 wide) and the bar board at x 120 (376 wide)
    assert_eq!(6 + 588, 594);
    assert_eq!(120 + 376, 496);
    assert_eq!(clipped_width(6, 588), 445);
    assert_eq!(clipped_width(120, 376), 331);
    assert_eq!(clipped_width(144, 16), 16);
    assert_eq!(clipped_width(460, 16), 0, "wholly past the edge");
    assert_eq!(clipped_width(i32::MIN, 16), 16, "any x is clipped");
    assert_eq!(clipped_width(i32::MAX, 16), 0);
}

#[test]
fn guildless_guild_page_shows_the_empty_state() {
    for field in [
        GuildInfoField::Name,
        GuildInfoField::Level,
        GuildInfoField::Leader,
        GuildInfoField::MemberCount,
        GuildInfoField::GpPercent,
        GuildInfoField::GpValue,
    ] {
        assert_eq!(field_text(field, None), EMPTY, "{field:?}");
    }
}

#[test]
fn guild_header_binds_the_guild_record() {
    let data = record();
    assert_eq!(field_text(GuildInfoField::Name, Some(&data)), "Roadmen");
    assert_eq!(field_text(GuildInfoField::Level, Some(&data)), "3");
    assert_eq!(field_text(GuildInfoField::Leader, Some(&data)), "Master");
    assert_eq!(field_text(GuildInfoField::MemberCount, Some(&data)), "2");
    assert_eq!(field_text(GuildInfoField::GpValue, Some(&data)), "12,345");
}

#[test]
fn guild_leader_falls_back_when_no_member_claims_the_master_flag() {
    let mut data = record();
    for m in data.members.iter_mut() {
        m.is_master = false;
    }
    assert_eq!(field_text(GuildInfoField::Leader, Some(&data)), EMPTY);
}

#[test]
fn gp_gauge_stays_empty_until_a_threshold_exists() {
    let data = record();
    assert_eq!(field_text(GuildInfoField::GpPercent, Some(&data)), EMPTY);
}

#[test]
fn the_first_master_is_the_leader() {
    let mut data = record();
    data.members.insert(0, member("Elder", true));
    assert_eq!(field_text(GuildInfoField::Leader, Some(&data)), "Elder");
}

#[test]
fn rows_past_the_roster_are_blank_and_dotless() {
    let mut data = record();
    data.members[1].is_offline = true;
    assert_eq!(online_dot(row_member(Some(&data), 0)), Some(ONLINE_DOT));
    assert_eq!(online_dot(row_member(Some(&data), 1)), Some(OFFLINE_DOT));
    assert!(row_member(Some(&data), 2).is_none());
    assert_eq!(online_dot(row_member(Some(&data), 2)), None);
    assert!(row_member(None, 0).is_none());
}

#[test]
fn the_notice_pane_opens_on_the_strip_and_closes_on_confirm() {
    let mut open = GuildNoticeOpen(false);
    on_notice_subject(&mut open);
    assert!(open.0);
    on_notice_confirm(&mut open);
    assert!(!open.0);
}

#[test]
fn join_invites_the_selected_entity_by_its_network_id() {
    assert_eq!(on_guild_invite(None, None), None);
    assert_eq!(on_guild_invite(Some(4), None), None, "no id, nothing sent");
    assert_eq!(on_guild_invite(Some(4), Some(900)), Some(GuildAction::Invite(900)));
}
