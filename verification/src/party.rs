//! The party window and its mode modal.
//!
//! The modal chooses the party's setup flags before the create request goes
//! out. One of the three bits is not cosmetic: shared EXP doubles the
//! party's capacity from 4 to 8. The flags are committed only on OK, so a
//! cancelled dialog leaves the pending setup exactly as it was.
use crate::text::{chars_eq, chars_of, decimal, decimal_string, has_prefix, starts_with_chars, string_of};
use vstd::prelude::*;

verus! {

/// The party's setup byte.
#[derive(Clone, Copy, Debug, PartialEq, Eq, Structural)]
pub struct PartySetup(pub u8);

impl PartySetup {
    pub const EXP_SHARED: u8 = 1;
    pub const ITEM_SHARED: u8 = 2;
    pub const ANYONE_CAN_INVITE: u8 = 4;

    pub open spec fn spec_exp_shared(self) -> bool {
        self.0 & 1u8 != 0
    }

    pub open spec fn spec_item_shared(self) -> bool {
        self.0 & 2u8 != 0
    }

    pub open spec fn spec_anyone_can_invite(self) -> bool {
        self.0 & 4u8 != 0
    }

    pub fn is_exp_shared(&self) -> (b: bool)
        ensures
            b == self.spec_exp_shared(),
    {
        self.0 & Self::EXP_SHARED != 0
    }

    pub fn is_item_shared(&self) -> (b: bool)
        ensures
            b == self.spec_item_shared(),
    {
        self.0 & Self::ITEM_SHARED != 0
    }

    pub fn anyone_can_invite(&self) -> (b: bool)
        ensures
            b == self.spec_anyone_can_invite(),
    {
        self.0 & Self::ANYONE_CAN_INVITE != 0
    }

    /// Shared EXP makes an eight-member party; otherwise it holds four.
    pub fn capacity(&self) -> (c: u8)
        ensures
            c == (if self.spec_exp_shared() {
                8u8
            } else {
                4u8
            }),
    {
        if self.is_exp_shared() {
            8
        } else {
            4
        }
    }
}

/// The flags as the setup byte.
pub open spec fn spec_setup_byte(exp_shared: bool, item_shared: bool, anyone_can_invite: bool) -> u8 {
    ((if exp_shared { 1u8 } else { 0u8 }) + (if item_shared { 2u8 } else { 0u8 }) + (if anyone_can_invite {
        4u8
    } else {
        0u8
    })) as u8
}

/// The modal's own state: the three flags, committed only on OK.
#[derive(Clone, Copy, Debug, PartialEq, Eq, Structural)]
pub struct PartyModeState {
    pub open: bool,
    pub exp_shared: bool,
    pub item_shared: bool,
    pub anyone_can_invite: bool,
}

impl PartyModeState {
    pub fn new() -> (s: PartyModeState)
        ensures
            !s.open && !s.exp_shared && !s.item_shared && !s.anyone_can_invite,
    {
        PartyModeState { open: false, exp_shared: false, item_shared: false, anyone_can_invite: false }
    }

    /// The flags as the wire byte.
    pub fn setup(&self) -> (setup: PartySetup)
        ensures
            setup.0 == spec_setup_byte(self.exp_shared, self.item_shared, self.anyone_can_invite),
            setup.spec_exp_shared() == self.exp_shared,
            setup.spec_item_shared() == self.item_shared,
            setup.spec_anyone_can_invite() == self.anyone_can_invite,
    {
        let mut bits: u8 = 0;
        if self.exp_shared {
            bits = bits + PartySetup::EXP_SHARED;
        }
        if self.item_shared {
            bits = bits + PartySetup::ITEM_SHARED;
        }
        if self.anyone_can_invite {
            bits = bits + PartySetup::ANYONE_CAN_INVITE;
        }
        proof {
            lemma_setup_bits(self.exp_shared, self.item_shared, self.anyone_can_invite);
        }
        PartySetup(bits)
    }
}

/// Each flag lands on its own bit of the byte.
pub proof fn lemma_setup_bits(exp_shared: bool, item_shared: bool, anyone_can_invite: bool)
    ensures
        ({
            let b = spec_setup_byte(exp_shared, item_shared, anyone_can_invite);
            &&& (b & 1u8 != 0) == exp_shared
            &&& (b & 2u8 != 0) == item_shared
            &&& (b & 4u8 != 0) == anyone_can_invite
        }),
{
    let b = spec_setup_byte(exp_shared, item_shared, anyone_can_invite);
    assert(b == 0 || b == 1 || b == 2 || b == 3 || b == 4 || b == 5 || b == 6 || b == 7);
    assert(0u8 & 1u8 == 0 && 0u8 & 2u8 == 0 && 0u8 & 4u8 == 0) by (bit_vector);
    assert(1u8 & 1u8 != 0 && 1u8 & 2u8 == 0 && 1u8 & 4u8 == 0) by (bit_vector);
    assert(2u8 & 1u8 == 0 && 2u8 & 2u8 != 0 && 2u8 & 4u8 == 0) by (bit_vector);
    assert(3u8 & 1u8 != 0 && 3u8 & 2u8 != 0 && 3u8 & 4u8 == 0) by (bit_vector);
    assert(4u8 & 1u8 == 0 && 4u8 & 2u8 == 0 && 4u8 & 4u8 != 0) by (bit_vector);
    assert(5u8 & 1u8 != 0 && 5u8 & 2u8 == 0 && 5u8 & 4u8 != 0) by (bit_vector);
    assert(6u8 & 1u8 == 0 && 6u8 & 2u8 != 0 && 6u8 & 4u8 != 0) by (bit_vector);
    assert(7u8 & 1u8 != 0 && 7u8 & 2u8 != 0 && 7u8 & 4u8 != 0) by (bit_vector);
}

/// The roster page's "Set" button opens the modal, seeded from the party's
/// own setup while a party exists and from the pending choice otherwise.
pub fn open_party_mode_modal(state: &mut PartyModeState, active_party_setup: Option<PartySetup>, pending: PartySetup)
    ensures
        ({
            let setup = match active_party_setup {
                Some(s) => s,
                None => pending,
            };
            *final(state) == PartyModeState {
                open: true,
                exp_shared: setup.spec_exp_shared(),
                item_shared: setup.spec_item_shared(),
                anyone_can_invite: setup.spec_anyone_can_invite(),
            }
        }),
{
    let setup = match active_party_setup {
        Some(s) => s,
        None => pending,
    };
    state.exp_shared = setup.is_exp_shared();
    state.item_shared = setup.is_item_shared();
    state.anyone_can_invite = setup.anyone_can_invite();
    state.open = true;
}

/// An option row was picked: group 0 is EXP, group 1 is items, and option 0
/// is "auto share" in both.
pub fn on_option(state: &mut PartyModeState, group: usize, option: usize)
    ensures
        *final(state) == (if group == 0 {
            PartyModeState { exp_shared: option == 0, ..*old(state) }
        } else if group == 1 {
            PartyModeState { item_shared: option == 0, ..*old(state) }
        } else {
            *old(state)
        }),
{
    let shared = option == 0;
    if group == 0 {
        state.exp_shared = shared;
    } else if group == 1 {
        state.item_shared = shared;
    }
}

/// The "can invite" check box.
pub fn on_invite_box(state: &mut PartyModeState)
    ensures
        *final(state) == (PartyModeState { anyone_can_invite: !old(state).anyone_can_invite, ..*old(state) }),
{
    state.anyone_can_invite = !state.anyone_can_invite;
}

/// OK commits the flags to the pending setup; Cancel does not. Both close.
pub fn on_mode_button(state: &mut PartyModeState, pending: &mut PartySetup, ok: bool)
    ensures
        *final(state) == (PartyModeState { open: false, ..*old(state) }),
        final(pending).0 == (if ok {
            spec_setup_byte(old(state).exp_shared, old(state).item_shared, old(state).anyone_can_invite)
        } else {
            old(pending).0
        }),
{
    if ok {
        *pending = state.setup();
    }
    state.open = false;
}

/// Whether option `option` (0 = auto share, 1 = free-for-all) of a group is
/// the selected one, given whether the group's flag is set.
pub open spec fn spec_option_selected(shared: bool, option: nat) -> bool {
    (option == 0) == shared
}

/// Whether option `option` of a group shows as selected.
pub fn option_selected(shared: bool, option: usize) -> (selected: bool)
    ensures
        selected == spec_option_selected(shared, option as nat),
{
    (option == 0) == shared
}

/// Each option group shows exactly one of its two options selected, and
/// the selected one is the group's flag read back.
pub proof fn law_one_option_per_group(shared: bool)
    ensures
        spec_option_selected(shared, 0) != spec_option_selected(shared, 1),
        spec_option_selected(shared, 0) == shared,
{
}

/// The `(string key, fallback)` caption of an option: group 0 is EXP,
/// group 1 is items; option 0 is auto share, option 1 free-for-all.
pub fn option_caption(group: usize, option: usize) -> (caption: (&'static str, &'static str))
    requires
        group < 2,
        option < 2,
    ensures
        caption == if group == 0 {
            if option == 0 {
                ("UIIT_STT_PARTY_EXP_SHARE", "Exp Auto Share")
            } else {
                ("UIIT_STT_PARTY_EXP_SELF", "Exp Free-For-All")
            }
        } else {
            if option == 0 {
                ("UIIT_STT_PARTY_ITEM_SHARE", "Item Auto Share")
            } else {
                ("UIIT_STT_PARTY_ITEM_SELF", "Item Free-For-All")
            }
        },
{
    if group == 0 {
        if option == 0 {
            ("UIIT_STT_PARTY_EXP_SHARE", "Exp Auto Share")
        } else {
            ("UIIT_STT_PARTY_EXP_SELF", "Exp Free-For-All")
        }
    } else {
        if option == 0 {
            ("UIIT_STT_PARTY_ITEM_SHARE", "Item Auto Share")
        } else {
            ("UIIT_STT_PARTY_ITEM_SELF", "Item Free-For-All")
        }
    }
}

/// The radio art an option row or the check box shows: the data names the
/// radio sprite pair for both.
pub fn mark_art(on: bool) -> (art: &'static str)
    ensures
        art@ == if on {
            "media://interface/ifcommon/com_radiobutton_on.ddj"@
        } else {
            "media://interface/ifcommon/com_radiobutton_off.ddj"@
        },
{
    if on {
        "media://interface/ifcommon/com_radiobutton_on.ddj"
    } else {
        "media://interface/ifcommon/com_radiobutton_off.ddj"
    }
}

// --- the party window ---------------------------------------------------------------

/// The footer's three verbs.
#[derive(Clone, Copy, Debug, PartialEq, Eq, Structural)]
pub enum PartyWindowRequest {
    /// Ask the currently selected player into the party.
    Invite,
    /// Open the mode modal.
    Setting,
    /// Open the party-matching board.
    Match,
}

/// Which of the three footer buttons was pressed.
#[derive(Clone, Copy, Debug, PartialEq, Eq, Structural)]
pub enum PartyButton {
    Invite,
    Setting,
    Match,
}

pub fn on_footer_button(button: PartyButton) -> (request: PartyWindowRequest)
    ensures
        request == (match button {
            PartyButton::Invite => PartyWindowRequest::Invite,
            PartyButton::Setting => PartyWindowRequest::Setting,
            PartyButton::Match => PartyWindowRequest::Match,
        }),
{
    match button {
        PartyButton::Invite => PartyWindowRequest::Invite,
        PartyButton::Setting => PartyWindowRequest::Setting,
        PartyButton::Match => PartyWindowRequest::Match,
    }
}

/// A party action the window raises.
#[derive(Clone, Copy, Debug, PartialEq, Eq, Structural)]
pub enum PartyAction {
    Leave,
    Kick(u32),
}

/// Whether the row menu's Banish is enabled: kicking is the leader's
/// privilege, it needs a member id to name, and nobody kicks themselves.
pub fn banish_enabled(we_lead: bool, member_id: Option<u32>, is_local: bool) -> (enabled: bool)
    ensures
        enabled == (we_lead && member_id is Some && !is_local),
{
    we_lead && member_id.is_some() && !is_local
}

/// The window's own state that the row menu uses.
#[derive(Clone, Copy, Debug, PartialEq, Eq, Structural)]
pub struct PartyWindowState {
    pub open: bool,
    /// The member the open row menu is about.
    pub context_member: Option<u32>,
}

/// A row was right-clicked: remember whose row the menu is about.
pub fn on_party_row_click(state: &mut PartyWindowState, member_id: Option<u32>)
    ensures
        *final(state) == (PartyWindowState { context_member: member_id, ..*old(state) }),
{
    state.context_member = member_id;
}

/// Fire the picked menu row (0 Banish, 1 Leave) and close the menu; any
/// left click dismisses it, picked or not.
pub fn pick_party_row_menu(state: &mut PartyWindowState, picked: Option<usize>) -> (action: Option<PartyAction>)
    ensures
        action == (match picked {
            Some(0) => match old(state).context_member {
                Some(m) => Some(PartyAction::Kick(m)),
                None => None,
            },
            Some(1) => Some(PartyAction::Leave),
            _ => None,
        }),
        *final(state) == (PartyWindowState { context_member: None, ..*old(state) }),
{
    let action = match picked {
        Some(0) => match state.context_member {
            Some(m) => Some(PartyAction::Kick(m)),
            None => None,
        },
        Some(1) => Some(PartyAction::Leave),
        _ => None,
    };
    state.context_member = None;
    action
}

/// The window's close button.
pub fn on_close_button(state: &mut PartyWindowState)
    ensures
        *final(state) == (PartyWindowState { open: false, ..*old(state) }),
{
    state.open = false;
}

/// Repaint only while the window is up and something it draws moved — the
/// mode modal's commit included.
pub fn party_needs_refresh(open: bool, state_changed: bool, roster_changed: bool, pending_changed: bool) -> (refresh: bool)
    ensures
        refresh == (open && (state_changed || roster_changed || pending_changed)),
{
    open && (state_changed || roster_changed || pending_changed)
}

/// Slot rows: seven below the pinned header row, on a 33 px pitch.
pub const SLOT_TOP: u32 = 69;
pub const SLOT_PITCH: u32 = 33;
pub const HEADER_TOP: u32 = 36;
pub const DIVIDER_Y: u32 = 300;

/// The top of slot row `index` (0-based, below the header).
pub fn slot_row_y(index: u32) -> (y: u32)
    requires
        index < 7,
    ensures
        y == SLOT_TOP + index * SLOT_PITCH,
{
    SLOT_TOP + index * SLOT_PITCH
}

/// The kindred mark for a member.
pub fn kindred_art(european: bool) -> (art: &'static str)
    ensures
        art@ == (if european {
            "com_kindred_europe16.ddj"@
        } else {
            "com_kindred_china16.ddj"@
        }),
{
    if european {
        "com_kindred_europe16.ddj"
    } else {
        "com_kindred_china16.ddj"
    }
}

/// The race-source portrait: the placeholder plate for any member whose
/// character data is known, nothing otherwise.
pub fn race_portrait(code_name_known: bool) -> (art: Option<&'static str>)
    ensures
        match art {
            Some(a) => code_name_known && a@ == "media://interface/party/pt_no_face.ddj"@,
            None => !code_name_known,
        },
{
    if code_name_known {
        Some("media://interface/party/pt_no_face.ddj")
    } else {
        None
    }
}

/// OK and Cancel differ only in whether the pending setup changes: a
/// cancelled modal leaves the next create request exactly as it was, and an
/// accepted one sends what the modal showed, so re-opening shows it again.
pub proof fn law_modal_round_trip(exp_shared: bool, item_shared: bool, anyone_can_invite: bool)
    ensures
        ({
            let s = PartySetup(spec_setup_byte(exp_shared, item_shared, anyone_can_invite));
            &&& s.spec_exp_shared() == exp_shared
            &&& s.spec_item_shared() == item_shared
            &&& s.spec_anyone_can_invite() == anyone_can_invite
        }),
{
    lemma_setup_bits(exp_shared, item_shared, anyone_can_invite);
}

// --- the roster rows ------------------------------------------------------------------

/// Where a row's portrait comes from (a client setting).
#[derive(Clone, Copy, Debug, PartialEq, Eq, Structural)]
pub enum PartyPortraitSource {
    /// The character row's own icon.
    Icon,
    /// The placeholder face, for any member whose character row is known.
    Race,
    /// No portrait.
    Off,
}

/// What the roster knows of one member.
pub struct PartyMember {
    /// The member's party id, what a kick names; absent when the presence
    /// mask never carried one.
    pub member_id: Option<u32>,
    pub name: Option<String>,
    pub level: Option<u8>,
    pub guild_name: Option<String>,
    /// The two mastery ids; 0 stands for none.
    pub mastery_primary: Option<u32>,
    pub mastery_secondary: Option<u32>,
}

/// The member's character row, as the row reads it: its icon and codename.
pub struct CharacterRow {
    pub icon: Option<String>,
    pub code_name: String,
}

/// One drawable roster row.
pub struct RowView {
    pub member_id: Option<u32>,
    pub name: String,
    pub level: String,
    pub guild: String,
    pub portrait: Option<String>,
    pub european: bool,
    pub crown: bool,
    pub is_local: bool,
    /// The badges of the primary and secondary mastery.
    pub masteries: [Option<String>; 2],
}

/// The view of an optional string.
pub open spec fn opt_view(s: Option<String>) -> Option<Seq<char>> {
    match s {
        Some(v) => Some(v@),
        None => None,
    }
}

/// The icon the mastery table gives `id`: that of the first row with the
/// id, which may itself have none.
pub open spec fn table_icon(table: Seq<(u32, Option<String>)>, id: u32) -> Option<Seq<char>>
    decreases table.len(),
{
    if table.len() == 0 {
        None
    } else if table[0].0 == id {
        opt_view(table[0].1)
    } else {
        table_icon(table.drop_first(), id)
    }
}

/// A mastery badge: none for a missing or zero id, else the table's icon.
pub open spec fn spec_mastery_icon(id: Option<u32>, table: Seq<(u32, Option<String>)>) -> Option<Seq<char>> {
    match id {
        Some(i) => if i == 0 {
            None
        } else {
            table_icon(table, i)
        },
        None => None,
    }
}

/// The badge of mastery `id`, looked up in `table` (mastery id, icon).
pub fn mastery_icon(id: Option<u32>, table: &[(u32, Option<String>)]) -> (icon: Option<String>)
    ensures
        opt_view(icon) == spec_mastery_icon(id, table@),
{
    let mid = match id {
        Some(i) => i,
        None => return None,
    };
    if mid == 0 {
        return None;
    }
    let mut i: usize = 0;
    proof {
        assert(table@.skip(0) =~= table@);
    }
    while i < table.len()
        invariant
            mid != 0,
            id == Some(mid),
            i <= table@.len(),
            table_icon(table@.skip(i as int), mid) == table_icon(table@, mid),
        decreases table@.len() - i,
    {
        proof {
            assert(table@.skip(i as int)[0] == table@[i as int]);
            assert(table@.skip(i as int).drop_first() =~= table@.skip(i + 1));
        }
        if table[i].0 == mid {
            let found = match &table[i].1 {
                Some(icon) => Some(icon.clone()),
                None => None,
            };
            proof {
                assert(table_icon(table@.skip(i as int), mid) == opt_view(table@[i as int].1));
                assert(opt_view(found) == opt_view(table@[i as int].1));
            }
            return found;
        }
        i = i + 1;
    }
    None
}

/// The view of an optional string, empty when absent.
pub open spec fn or_empty(s: Option<String>) -> Seq<char> {
    match s {
        Some(v) => v@,
        None => Seq::empty(),
    }
}

fn clone_or_empty(s: &Option<String>) -> (r: String)
    ensures
        r@ == or_empty(*s),
{
    match s {
        Some(v) => v.clone(),
        None => string_of(&Vec::new()),
    }
}

/// Resolve one roster member into its drawable row: the name, level and
/// guild as text (blank when unknown); the crown on the leader; the local
/// player's own row marked by name; the portrait per the setting; and the
/// European race mark for a character row whose codename starts `CHAR_EU`.
pub fn row_view(
    member: &PartyMember,
    leader_id: Option<u32>,
    local_name: Option<&str>,
    portraits: PartyPortraitSource,
    character: Option<&CharacterRow>,
    mastery_table: &[(u32, Option<String>)],
) -> (row: RowView)
    ensures
        opt_view(row.masteries@[0]) == spec_mastery_icon(member.mastery_primary, mastery_table@),
        opt_view(row.masteries@[1]) == spec_mastery_icon(member.mastery_secondary, mastery_table@),
        row.member_id == member.member_id,
        row.name@ == or_empty(member.name),
        row.level@ == match member.level {
            Some(l) => decimal(l as nat),
            None => Seq::empty(),
        },
        row.guild@ == or_empty(member.guild_name),
        row.crown == (member.member_id is Some && member.member_id == leader_id),
        row.is_local == match local_name {
            Some(local) => local@ == or_empty(member.name),
            None => false,
        },
        row.european == match character {
            Some(c) => has_prefix(c.code_name@, "CHAR_EU"@),
            None => false,
        },
        match portraits {
            PartyPortraitSource::Icon => match character {
                Some(c) => match (row.portrait, c.icon) {
                    (Some(p), Some(i)) => p@ == i@,
                    (None, None) => true,
                    _ => false,
                },
                None => row.portrait is None,
            },
            PartyPortraitSource::Race => match row.portrait {
                Some(p) => character is Some && p@ == "media://interface/party/pt_no_face.ddj"@,
                None => character is None,
            },
            PartyPortraitSource::Off => row.portrait is None,
        },
{
    let name = clone_or_empty(&member.name);
    let level = match member.level {
        Some(l) => decimal_string(l as u64),
        None => string_of(&Vec::new()),
    };
    let guild = clone_or_empty(&member.guild_name);
    let crown = match (member.member_id, leader_id) {
        (Some(id), Some(leader)) => id == leader,
        _ => false,
    };
    let is_local = match local_name {
        Some(local) => {
            let a = chars_of(local);
            let b = chars_of(name.as_str());
            chars_eq(&a, &b)
        },
        None => false,
    };
    let european = match character {
        Some(c) => {
            let code = chars_of(c.code_name.as_str());
            let prefix = chars_of("CHAR_EU");
            starts_with_chars(&code, &prefix)
        },
        None => false,
    };
    let portrait = match portraits {
        PartyPortraitSource::Icon => match character {
            Some(c) => match &c.icon {
                Some(i) => Some(i.clone()),
                None => None,
            },
            None => None,
        },
        PartyPortraitSource::Race => match race_portrait(character.is_some()) {
            Some(a) => Some(a.to_string()),
            None => None,
        },
        PartyPortraitSource::Off => None,
    };
    let masteries = [
        mastery_icon(member.mastery_primary, mastery_table),
        mastery_icon(member.mastery_secondary, mastery_table),
    ];
    RowView { member_id: member.member_id, name, level, guild, portrait, european, crown, is_local, masteries }
}

} // verus!
