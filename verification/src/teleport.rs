//! Teleport destination board (the dialog's "Select teleport area" option).
//!
//! The board is a paginated card page: five destination cards at a fixed
//! pitch, a pager under them, and on each card the destination, its price
//! line and a Move button. The window lives inside the NPC talk session.
use vstd::prelude::*;
use crate::npc_dialog::NpcDialogState;
use crate::text::{decimal, fill_template, push_decimal, push_str, string_of, views_of};

verus! {

pub const TITLE_KEY: &'static str = "UIIT_PAG_TELEPORT";
pub const SUBTITLE_KEY: &'static str = "UIIT_CTL_TELEPORT_TARGET";
pub const PRICE_KEY: &'static str = "UIIT_CTL_TELEPORT_RESULT";
pub const PRICE_FREE_KEY: &'static str = "UIIT_CTL_TELEPORT_FREE_RESULT";
pub const MOVE_KEY: &'static str = "UIIT_CTL_MOVE";

/// Destination cards per board page.
pub const SLOTS_PER_PAGE: usize = 5;
/// Vertical distance between two cards.
pub const SLOT_PITCH: i32 = 80;
/// The board's title band is drawn by the shared shell, so the authored
/// rects are laid out from board `y = 48`.
pub const BOARD_ORIGIN_Y: i32 = 48;
/// The first card, `(x, y, w, h)` in content space.
pub const SLOT_RECT: (i32, i32, i32, i32) = (47, 57, 357, 76);
/// The pager, in content space.
pub const PAGER_RECT: (i32, i32, i32, i32) = (181, 472, 80, 24);
/// The content ends under the pager.
pub const CONTENT_H: i32 = 504;
pub const CONTENT_W: i32 = 440;
/// Card internals, local to a card.
pub const CARD_ICON_RECT: (i32, i32, i32, i32) = (6, 6, 64, 64);
pub const CARD_PLACE_RECT: (i32, i32, i32, i32) = (70, 14, 182, 21);
pub const CARD_PRICE_RECT: (i32, i32, i32, i32) = (70, 44, 182, 21);
pub const CARD_MOVE_RECT: (i32, i32, i32, i32) = (252, 20, 92, 36);

/// `ceil(n / SLOTS_PER_PAGE)`, and never less than one page.
pub open spec fn spec_page_count(n: nat) -> nat {
    let pages = (n + 4) / 5;
    if pages == 0 {
        1
    } else {
        pages
    }
}

/// Page count for `destinations` links at [`SLOTS_PER_PAGE`] per page; an
/// empty list still has its one (empty) page.
pub fn page_count(destinations: usize) -> (pages: usize)
    ensures
        pages == spec_page_count(destinations as nat),
        pages >= 1,
{
    let full = destinations / SLOTS_PER_PAGE;
    let pages = if destinations % SLOTS_PER_PAGE != 0 {
        full + 1
    } else {
        full
    };
    if pages == 0 {
        1
    } else {
        pages
    }
}

/// The first index shown on `page`, clamped to the list.
pub open spec fn page_start(len: nat, page: nat) -> nat {
    if page * 5 <= len {
        page * 5
    } else {
        len
    }
}

/// One past the last index shown on `page`.
pub open spec fn page_end(len: nat, page: nat) -> nat {
    if page_start(len, page) + 5 <= len {
        page_start(len, page) + 5
    } else {
        len
    }
}

/// The links shown on `page` (0-based): at most five, and nothing for a page
/// past the end rather than a panic.
pub fn page_slice<T>(links: &[T], page: usize) -> (shown: &[T])
    ensures
        shown@ == links@.subrange(
            page_start(links@.len(), page as nat) as int,
            page_end(links@.len(), page as nat) as int,
        ),
{
    let len = links.len();
    let start = if page <= len / SLOTS_PER_PAGE {
        let s = page * SLOTS_PER_PAGE;
        if s <= len {
            s
        } else {
            len
        }
    } else {
        len
    };
    proof {
        if page <= len / 5 {
            assert(page * 5 <= len) by (nonlinear_arith)
                requires
                    page <= len / 5,
            ;
        } else {
            assert(page * 5 > len) by (nonlinear_arith)
                requires
                    page > len / 5,
            ;
        }
    }
    let end = if len - start >= SLOTS_PER_PAGE {
        start + SLOTS_PER_PAGE
    } else {
        len
    };
    &links[start..end]
}

/// The page actually drawn: the requested one, clamped to the last page.
pub fn displayed_page(page: usize, pages: usize) -> (shown: usize)
    requires
        pages >= 1,
    ensures
        shown == (if page <= pages - 1 {
            page
        } else {
            (pages - 1) as usize
        }),
{
    if page <= pages - 1 {
        page
    } else {
        pages - 1
    }
}

/// The top-left corner of card `slot` on the board, in content space.
pub fn card_origin(slot: usize) -> (origin: (i32, i32))
    requires
        slot < SLOTS_PER_PAGE,
    ensures
        origin.0 == SLOT_RECT.0,
        origin.1 == SLOT_RECT.1 + slot * SLOT_PITCH,
{
    (SLOT_RECT.0, SLOT_RECT.1 + slot as i32 * SLOT_PITCH)
}

/// The open teleport session.
#[derive(Clone, Copy, Debug, PartialEq, Eq, Structural)]
pub struct TeleportWindowState {
    pub open_for: Option<u64>,
    /// Current 0-based page of the destination board.
    pub page: usize,
}

impl TeleportWindowState {
    pub fn new() -> (s: TeleportWindowState)
        ensures
            s.open_for is None,
            s.page == 0,
    {
        TeleportWindowState { open_for: None, page: 0 }
    }
}

/// Open on the dialog's teleport option, on the first page.
pub fn on_open_teleport(state: &mut TeleportWindowState, npc: u64)
    ensures
        *final(state) == (TeleportWindowState { open_for: Some(npc), page: 0 }),
{
    state.open_for = Some(npc);
    state.page = 0;
}

/// The window lives inside the talk session: it closes when the dialog does.
pub fn close_teleport_with_dialog(state: &mut TeleportWindowState, dialog: NpcDialogState)
    ensures
        *final(state) == (if old(state).open_for is Some && dialog == NpcDialogState::Closed {
            TeleportWindowState { open_for: None, page: 0 }
        } else {
            *old(state)
        }),
{
    if state.open_for.is_some() && dialog == NpcDialogState::Closed {
        state.open_for = None;
        state.page = 0;
    }
}

/// The window's close button.
pub fn on_close_button(state: &mut TeleportWindowState)
    ensures
        *final(state) == (TeleportWindowState { open_for: None, page: 0 }),
{
    state.open_for = None;
    state.page = 0;
}

/// Page the board by `step` (`-1` back, `+1` forward). The rebuild clamps an
/// over-run page, so the arrows only have to stay non-negative.
pub fn on_pager_click(state: &mut TeleportWindowState, step: i32)
    ensures
        final(state).open_for == old(state).open_for,
        final(state).page == (if old(state).page + step < 0 {
            0
        } else if old(state).page + step > usize::MAX {
            usize::MAX as int
        } else {
            old(state).page + step
        }),
{
    if step < 0 {
        let back = (-(step as i64)) as usize;
        state.page = if state.page >= back {
            state.page - back
        } else {
            0
        };
    } else {
        let forward = step as usize;
        state.page = if state.page <= usize::MAX - forward {
            state.page + forward
        } else {
            usize::MAX
        };
    }
}

/// The teleport request a card's Move button sends.
#[derive(Clone, Copy, Debug, PartialEq, Eq, Structural)]
pub struct TeleportRequest {
    pub npc_unique_id: u32,
    pub kind: u8,
    pub destination_id: u32,
}

/// A card's Move button: request the teleport and close the board.
pub fn on_teleport_line(state: &mut TeleportWindowState, npc_id: u32, destination_id: u32) -> (request: TeleportRequest)
    ensures
        request == (TeleportRequest { npc_unique_id: npc_id, kind: 2, destination_id }),
        final(state).open_for is None,
        final(state).page == old(state).page,
{
    state.open_for = None;
    TeleportRequest { npc_unique_id: npc_id, kind: 2, destination_id }
}

/// The price line: the paid template with the name and the fee when a fee
/// applies, the free template with the name alone when it does not.
pub open spec fn spec_price_line(name: Seq<char>, fee: u64, paid: Seq<char>, free: Seq<char>) -> Seq<char> {
    if fee > 0 {
        fill_template(paid, seq![name, decimal(fee as nat)])
    } else {
        fill_template(free, seq![name])
    }
}

/// Render a card's price line from the data's own paid/free template pair.
pub fn price_line(name: &str, fee: u64, paid_template: &str, free_template: &str) -> (line: String)
    ensures
        line@ == spec_price_line(name@, fee, paid_template@, free_template@),
{
    if fee > 0 {
        let mut digits: Vec<char> = Vec::new();
        push_decimal(&mut digits, fee);
        let fee_text = string_of(&digits);
        let args: [&str; 2] = [name, fee_text.as_str()];
        let line = crate::text::format_template(paid_template, &args);
        proof {
            assert(digits@ =~= decimal(fee as nat));
            assert(views_of(args@) =~= seq![name@, decimal(fee as nat)]);
        }
        line
    } else {
        let args: [&str; 1] = [name];
        let line = crate::text::format_template(free_template, &args);
        proof {
            assert(views_of(args@) =~= seq![name@]);
        }
        line
    }
}

/// The name a destination card shows: the name string of the destination's
/// row when the name table has one, else the row's codename; a destination
/// with no row at all reads `Teleporter <id>`.
pub open spec fn spec_destination_name(info: Option<(Option<Seq<char>>, Seq<char>)>, destination: u32) -> Seq<char> {
    match info {
        Some((Some(name), _)) => name,
        Some((None, codename)) => codename,
        None => "Teleporter "@ + decimal(destination as nat),
    }
}

/// The name a destination card shows. `info` is the destination's row, as
/// its looked-up name (if the name table has it) and its codename.
pub fn destination_name(info: Option<(Option<&str>, &str)>, destination: u32) -> (name: String)
    ensures
        name@ == spec_destination_name(
            match info {
                Some((n, c)) => Some((
                    match n {
                        Some(v) => Some(v@),
                        None => None,
                    },
                    c@,
                )),
                None => None,
            },
            destination,
        ),
{
    let mut out: Vec<char> = Vec::new();
    match info {
        Some((Some(name), _)) => push_str(&mut out, name),
        Some((None, codename)) => push_str(&mut out, codename),
        None => {
            push_str(&mut out, "Teleporter ");
            push_decimal(&mut out, destination as u64);
        },
    }
    proof {
        assert(out@ =~= spec_destination_name(
            match info {
                Some((n, c)) => Some((
                    match n {
                        Some(v) => Some(v@),
                        None => None,
                    },
                    c@,
                )),
                None => None,
            },
            destination,
        ));
    }
    string_of(&out)
}

/// The card's destination line: the name, plus the level gate when there is
/// one, as `"  [Lv N+]"`.
pub open spec fn spec_place_text(name: Seq<char>, min_level: Option<u8>) -> Seq<char> {
    match min_level {
        None => name,
        Some(min) => name + "  [Lv "@ + decimal(min as nat) + "+]"@,
    }
}

pub fn place_text(name: &str, min_level: Option<u8>) -> (text: String)
    ensures
        text@ == spec_place_text(name@, min_level),
{
    let mut out: Vec<char> = Vec::new();
    push_str(&mut out, name);
    match min_level {
        None => {},
        Some(min) => {
            push_str(&mut out, "  [Lv ");
            push_decimal(&mut out, min as u64);
            push_str(&mut out, "+]");
        },
    }
    proof {
        match min_level {
            None => {
                assert(out@ =~= name@);
            },
            Some(min) => {
                assert(out@ =~= name@ + "  [Lv "@ + decimal(min as nat) + "+]"@);
            },
        }
    }
    string_of(&out)
}

/// Every page holds at most five links, and the pages together cover the
/// list exactly once, in order.
pub proof fn law_pages_partition_the_list(len: nat, page: nat)
    ensures
        page_end(len, page) - page_start(len, page) <= SLOTS_PER_PAGE,
        page_start(len, page) <= page_end(len, page) <= len,
        page < spec_page_count(len) && len > 0 ==> page_start(len, page) == page * 5,
        page + 1 < spec_page_count(len) ==> page_end(len, page) == page_start(len, page + 1),
        page >= spec_page_count(len) ==> page_start(len, page) == len,
{
    assert(page * 5 + 5 == (page + 1) * 5) by (nonlinear_arith);
    if page < spec_page_count(len) && len > 0 {
        assert(page * 5 <= len) by (nonlinear_arith)
            requires
                page < (len + 4) / 5,
        ;
    }
    if page + 1 < spec_page_count(len) {
        assert((page + 1) * 5 <= len) by (nonlinear_arith)
            requires
                page + 1 < (len + 4) / 5,
        ;
    }
    if page >= spec_page_count(len) {
        assert(page * 5 >= len) by (nonlinear_arith)
            requires
                page >= (len + 4) / 5,
        ;
    }
}

} // verus!
