//! The community window's guild page: the header statics bound to the guild
//! record, the roster rows, the notice strip and pane, and the command
//! column's captions. A guildless player sees the page with every header
//! static reading `-`.
use crate::text::{decimal, decimal_string, format_thousands, string_of, thousands};
use vstd::prelude::*;

verus! {

/// What a header static shows when there is no guild.
pub const EMPTY: &'static str = "-";

/// The page's width, where art-sized statics are clipped.
pub const PAGE_W: i32 = 451;

/// How many roster rows the page shows (it does not scroll).
pub const VISIBLE_ROWS: usize = 6;

/// One member of the guild roster record.
pub struct GuildMember {
    pub member_id: u32,
    pub name: String,
    pub level: u8,
    pub guild_points: u32,
    pub is_master: bool,
    pub is_offline: bool,
}

/// The guild record.
pub struct GuildData {
    pub guild_id: u32,
    pub name: String,
    pub level: u8,
    pub guild_points: u32,
    /// The notice's title.
    pub notice: String,
    /// The notice's body.
    pub message: String,
    pub member_count: u8,
    pub members: Vec<GuildMember>,
}

/// The header statics the record fills.
#[derive(Clone, Copy, PartialEq, Eq, Structural, Debug)]
pub enum GuildInfoField {
    Name,
    Level,
    Leader,
    MemberCount,
    GpPercent,
    GpValue,
}

/// The name of the first member that claims the master flag.
pub open spec fn first_master(members: Seq<GuildMember>) -> Option<Seq<char>>
    decreases members.len(),
{
    if members.len() == 0 {
        None
    } else if members[0].is_master {
        Some(members[0].name@)
    } else {
        first_master(members.drop_first())
    }
}

/// What a header static shows for the record (`None`: guildless). The leader
/// is the first member flagged master; the GP percentage has no threshold to
/// measure against, so it always reads `-`.
pub open spec fn spec_field_text(field: GuildInfoField, data: Option<&GuildData>) -> Seq<char> {
    match data {
        None => EMPTY@,
        Some(d) => match field {
            GuildInfoField::Name => d.name@,
            GuildInfoField::Level => decimal(d.level as nat),
            GuildInfoField::Leader => match first_master(d.members@) {
                Some(name) => name,
                None => EMPTY@,
            },
            GuildInfoField::MemberCount => decimal(d.member_count as nat),
            GuildInfoField::GpPercent => EMPTY@,
            GuildInfoField::GpValue => thousands(d.guild_points as nat),
        },
    }
}

fn leader_name(members: &Vec<GuildMember>) -> (name: Option<String>)
    ensures
        match name {
            Some(n) => first_master(members@) == Some(n@),
            None => first_master(members@) is None,
        },
{
    let mut i: usize = 0;
    proof {
        assert(members@.skip(0) =~= members@);
    }
    while i < members.len()
        invariant
            i <= members@.len(),
            first_master(members@) == first_master(members@.skip(i as int)),
        decreases members@.len() - i,
    {
        if members[i].is_master {
            proof {
                assert(members@.skip(i as int)[0] == members@[i as int]);
            }
            return Some(members[i].name.clone());
        }
        proof {
            assert(members@.skip(i as int).drop_first() =~= members@.skip(i + 1));
        }
        i = i + 1;
    }
    None
}

/// The text a header static shows for the given record.
pub fn field_text(field: GuildInfoField, data: Option<&GuildData>) -> (s: String)
    ensures
        s@ == spec_field_text(field, data),
{
    let d = match data {
        Some(d) => d,
        None => return EMPTY.to_string(),
    };
    match field {
        GuildInfoField::Name => d.name.clone(),
        GuildInfoField::Level => decimal_string(d.level as u64),
        GuildInfoField::Leader => match leader_name(&d.members) {
            Some(name) => name,
            None => EMPTY.to_string(),
        },
        GuildInfoField::MemberCount => decimal_string(d.member_count as u64),
        GuildInfoField::GpPercent => EMPTY.to_string(),
        GuildInfoField::GpValue => format_thousands(d.guild_points as u64),
    }
}

/// The four text columns of a roster row.
#[derive(Clone, Copy, PartialEq, Eq, Structural, Debug)]
pub enum RosterColumn {
    Name,
    Level,
    /// Always blank: the roster record carries no grade.
    Grade,
    DonatedGp,
}

/// A roster cell's text; a row past the roster's end is blank.
pub open spec fn spec_cell_text(column: RosterColumn, member: Option<&GuildMember>) -> Seq<char> {
    match member {
        None => Seq::empty(),
        Some(m) => match column {
            RosterColumn::Name => m.name@,
            RosterColumn::Level => decimal(m.level as nat),
            RosterColumn::Grade => Seq::empty(),
            RosterColumn::DonatedGp => thousands(m.guild_points as nat),
        },
    }
}

/// The text of one roster cell.
pub fn cell_text(column: RosterColumn, member: Option<&GuildMember>) -> (s: String)
    ensures
        s@ == spec_cell_text(column, member),
{
    let m = match member {
        Some(m) => m,
        None => return string_of(&Vec::new()),
    };
    match column {
        RosterColumn::Name => m.name.clone(),
        RosterColumn::Level => decimal_string(m.level as u64),
        RosterColumn::Grade => string_of(&Vec::new()),
        RosterColumn::DonatedGp => format_thousands(m.guild_points as u64),
    }
}

/// The contact dot's art for an online and an offline member.
pub const ONLINE_DOT: &'static str = "media://interface/guild/gil_contact_on.ddj";
pub const OFFLINE_DOT: &'static str = "media://interface/guild/gil_contact_off.ddj";

/// The contact dot a roster row shows: none past the roster's end, else the
/// online or offline art.
pub fn online_dot(member: Option<&GuildMember>) -> (art: Option<&'static str>)
    ensures
        art == match member {
            None => None,
            Some(m) => Some(if m.is_offline { OFFLINE_DOT } else { ONLINE_DOT }),
        },
{
    match member {
        None => None,
        Some(m) => Some(if m.is_offline { OFFLINE_DOT } else { ONLINE_DOT }),
    }
}

/// The roster member a row shows, if the roster reaches that far.
pub fn row_member(data: Option<&GuildData>, row: usize) -> (m: Option<&GuildMember>)
    ensures
        m == match data {
            Some(d) => if row < d.members@.len() { Some(&d.members@[row as int]) } else { None },
            None => None,
        },
{
    match data {
        Some(d) => if row < d.members.len() {
            Some(&d.members[row])
        } else {
            None
        },
        None => None,
    }
}

// --- the notice ---------------------------------------------------------------

/// Whether the notice read pane is open.
pub struct GuildNoticeOpen(pub bool);

/// Clicking the subject strip opens the read pane.
pub fn on_notice_subject(open: &mut GuildNoticeOpen)
    ensures
        final(open).0,
{
    open.0 = true;
}

/// The pane's Confirm closes it.
pub fn on_notice_confirm(open: &mut GuildNoticeOpen)
    ensures
        !final(open).0,
{
    open.0 = false;
}

/// The notice strip's title and the pane's body.
#[derive(Clone, Copy, PartialEq, Eq, Structural, Debug)]
pub enum GuildNoticeField {
    Subject,
    Body,
}

/// The notice text a field shows; blank without a guild.
pub fn notice_text(field: GuildNoticeField, data: Option<&GuildData>) -> (s: String)
    ensures
        s@ == match data {
            None => Seq::<char>::empty(),
            Some(d) => match field {
                GuildNoticeField::Subject => d.notice@,
                GuildNoticeField::Body => d.message@,
            },
        },
{
    match data {
        None => string_of(&Vec::new()),
        Some(d) => match field {
            GuildNoticeField::Subject => d.notice.clone(),
            GuildNoticeField::Body => d.message.clone(),
        },
    }
}

// --- the command column -----------------------------------------------------------

/// The slot of the Join command, the one with a request behind it.
pub const COMMAND_SLOT_INVITE: usize = 0;

/// The fifth slot's two candidates: the name grant by default, the position
/// grant behind the `position_grant` setting.
pub const COMMAND_SLOT5_DEFAULT: (&'static str, &'static str) = ("UIIT_STT_GUILD_NAME_GRANT", "Grant name");
pub const COMMAND_SLOT5_POSITION_GRANT: (&'static str, &'static str) = (
    "UIIT_CTL_GUILD_POSITION_GRANT",
    "Position allocating",
);

/// The five `(string key, fallback)` captions drawn, top to bottom: Join,
/// Grant authority, Withdraw, Leave, and the fifth slot's pick.
pub fn command_keys(position_grant: bool) -> (keys: [(&'static str, &'static str); 5])
    ensures
        keys@[0] == ("UIIT_STT_GUILD_JOIN", "Join"),
        keys@[1] == ("UIIT_CTL_AUTHORITY_GRANT", "Grant authority"),
        keys@[2] == ("UIIT_STT_GUILD_EXPULSION", "Withdraw"),
        keys@[3] == ("UIIT_STT_GUILD_EXIT", "Leave"),
        keys@[4] == if position_grant {
            COMMAND_SLOT5_POSITION_GRANT
        } else {
            COMMAND_SLOT5_DEFAULT
        },
{
    let slot5 = if position_grant {
        COMMAND_SLOT5_POSITION_GRANT
    } else {
        COMMAND_SLOT5_DEFAULT
    };
    [
        ("UIIT_STT_GUILD_JOIN", "Join"),
        ("UIIT_CTL_AUTHORITY_GRANT", "Grant authority"),
        ("UIIT_STT_GUILD_EXPULSION", "Withdraw"),
        ("UIIT_STT_GUILD_EXIT", "Leave"),
        slot5,
    ]
}

/// What the guild page asks of the server.
#[derive(Clone, Copy, PartialEq, Eq, Structural, Debug)]
pub enum GuildAction {
    /// Invite the entity with this network id.
    Invite(u32),
}

/// The Join command: invite the selected world entity by its network id.
/// Nothing is sent with no selection, nor for a selection without an id.
pub fn on_guild_invite(selected: Option<u64>, selected_network_id: Option<u32>) -> (action: Option<GuildAction>)
    ensures
        action == match (selected, selected_network_id) {
            (Some(_), Some(id)) => Some(GuildAction::Invite(id)),
            _ => None,
        },
{
    match (selected, selected_network_id) {
        (Some(_), Some(id)) => Some(GuildAction::Invite(id)),
        _ => None,
    }
}

/// The width of an art-sized static at `x`, clipped at the page's right edge.
pub fn clipped_width(x: i32, art_w: i32) -> (w: i32)
    ensures
        w == if PAGE_W - x < art_w {
            if PAGE_W - x < 0 { 0 } else { PAGE_W - x }
        } else {
            if art_w < 0 { 0 } else { art_w as int }
        },
{
    let room: i64 = PAGE_W as i64 - x as i64;
    let w: i64 = if room < art_w as i64 { room } else { art_w as i64 };
    if w < 0 { 0 } else { w as i32 }
}

} // verus!
