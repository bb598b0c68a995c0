//! Player-to-player exchange (trade) session state and its two-stage lock.
//!
//! The server owns the whole trade: the partner's half is a mirror replaced
//! wholesale by each update, our own half is never applied optimistically,
//! and the lock is two stage — confirm locks our offer, and approve is only
//! offered once the partner has confirmed too, so neither side can swap an
//! item out after the other has agreed.
use vstd::prelude::*;
use crate::text::{decimal, push_decimal, string_of};
use crate::inventory::{
    BAG_FIRST_SLOT, ItemTypeData, Inventory, InventoryItem, first_free_bag_slot_of, first_free_from,
    lemma_first_free_from,
};

verus! {

/// Slots per side of the trade window.
pub const EXCHANGE_SLOTS: usize = 12;

/// One trade. Everything here is server-pushed; nothing is predicted.
pub struct ExchangeSession {
    /// The partner's spawn unique id, used to reject an item update that
    /// describes somebody else.
    pub partner_unique_id: u32,
    /// Replaced wholesale on every partner update.
    pub partner_items: Vec<InventoryItem>,
    pub partner_gold: u64,
    /// Our staged offer.
    pub own_items: Vec<InventoryItem>,
    pub own_gold: u64,
    /// We sent confirm and the server acked it: our offer is locked.
    pub own_confirmed: bool,
    /// The peer locked theirs.
    pub partner_confirmed: bool,
    pub own_approved: bool,
}

/// The mathematical content of a session.
pub struct SessionView {
    pub partner_unique_id: u32,
    pub partner_items: Seq<InventoryItem>,
    pub partner_gold: u64,
    pub own_items: Seq<InventoryItem>,
    pub own_gold: u64,
    pub own_confirmed: bool,
    pub partner_confirmed: bool,
    pub own_approved: bool,
}

impl View for ExchangeSession {
    type V = SessionView;

    open spec fn view(&self) -> SessionView {
        SessionView {
            partner_unique_id: self.partner_unique_id,
            partner_items: self.partner_items@,
            partner_gold: self.partner_gold,
            own_items: self.own_items@,
            own_gold: self.own_gold,
            own_confirmed: self.own_confirmed,
            partner_confirmed: self.partner_confirmed,
            own_approved: self.own_approved,
        }
    }
}

/// A freshly opened trade against `partner`: both sides empty, nothing locked.
pub open spec fn new_session(partner: u32) -> SessionView {
    SessionView {
        partner_unique_id: partner,
        partner_items: Seq::empty(),
        partner_gold: 0,
        own_items: Seq::empty(),
        own_gold: 0,
        own_confirmed: false,
        partner_confirmed: false,
        own_approved: false,
    }
}

impl SessionView {
    pub open spec fn can_confirm(self) -> bool {
        !self.own_confirmed
    }

    pub open spec fn can_approve(self) -> bool {
        self.own_confirmed && self.partner_confirmed && !self.own_approved
    }
}

impl ExchangeSession {
    pub fn new(partner_unique_id: u32) -> (s: ExchangeSession)
        ensures
            s@ == new_session(partner_unique_id),
    {
        ExchangeSession {
            partner_unique_id,
            partner_items: Vec::new(),
            partner_gold: 0,
            own_items: Vec::new(),
            own_gold: 0,
            own_confirmed: false,
            partner_confirmed: false,
            own_approved: false,
        }
    }

    /// Confirm is offered until our own side locks; backing out after the
    /// lock means exiting.
    pub fn can_confirm(&self) -> (b: bool)
        ensures
            b == self@.can_confirm(),
    {
        !self.own_confirmed
    }

    /// The anti-scam gate: approve is enabled only once **both** sides are
    /// locked, and only once.
    pub fn can_approve(&self) -> (b: bool)
        ensures
            b == self@.can_approve(),
            b ==> self.own_confirmed && self.partner_confirmed,
    {
        self.own_confirmed && self.partner_confirmed && !self.own_approved
    }

    /// The action button reads "Confirm" until our side is locked and
    /// "Approve" afterwards.
    pub fn awaiting_approve(&self) -> (b: bool)
        ensures
            b == self.own_confirmed,
    {
        self.own_confirmed
    }

    /// Gold is editable only before our own lock.
    pub fn gold_editable(&self) -> (b: bool)
        ensures
            b == !self.own_confirmed,
    {
        !self.own_confirmed
    }
}

/// The open trade, or `None` when no window is up.
pub struct ExchangeState {
    pub session: Option<ExchangeSession>,
}

impl View for ExchangeState {
    type V = Option<SessionView>;

    open spec fn view(&self) -> Option<SessionView> {
        match self.session {
            Some(s) => Some(s@),
            None => None,
        }
    }
}

impl ExchangeState {
    pub fn new() -> (s: ExchangeState)
        ensures
            s@ is None,
    {
        ExchangeState { session: None }
    }
}

/// The server opened a trade window against `partner_unique_id`.
pub fn on_exchange_started(state: &mut ExchangeState, partner_unique_id: u32)
    ensures
        final(state)@ == Some(new_session(partner_unique_id)),
{
    state.session = Some(ExchangeSession::new(partner_unique_id));
}

/// What became of a partner item update.
#[derive(Clone, Copy, Debug, PartialEq, Eq, Structural)]
pub enum PartnerItemsOutcome {
    /// No trade is open; ignored.
    NoSession,
    /// The update describes somebody other than the partner; ignored.
    NotThePartner,
    /// The list could not be decoded; the pane is left unchanged rather than
    /// showing a partial list.
    Undecoded,
    /// The pane now shows the update. `over_capacity` flags a list longer
    /// than the window's slots, which the window cannot show in full.
    Applied { over_capacity: bool },
}

/// A partner item update for `player_unique_id`, with its decoded list
/// (`None` when the records did not decode). The list replaces the pane
/// wholesale.
pub fn on_partner_items(
    state: &mut ExchangeState,
    player_unique_id: u32,
    items: Option<Vec<InventoryItem>>,
) -> (outcome: PartnerItemsOutcome)
    ensures
        match old(state)@ {
            None => outcome == PartnerItemsOutcome::NoSession && final(state)@ == old(state)@,
            Some(s) => if player_unique_id != s.partner_unique_id {
                outcome == PartnerItemsOutcome::NotThePartner && final(state)@ == old(state)@
            } else {
                match items {
                    None => outcome == PartnerItemsOutcome::Undecoded && final(state)@ == old(
                        state,
                    )@,
                    Some(list) => outcome == (PartnerItemsOutcome::Applied {
                        over_capacity: list@.len() > EXCHANGE_SLOTS,
                    }) && final(state)@ == Some(SessionView { partner_items: list@, ..s }),
                }
            },
        },
{
    match &mut state.session {
        None => PartnerItemsOutcome::NoSession,
        Some(session) => {
            if player_unique_id != session.partner_unique_id {
                return PartnerItemsOutcome::NotThePartner;
            }
            match items {
                None => PartnerItemsOutcome::Undecoded,
                Some(list) => {
                    let over_capacity = list.len() > EXCHANGE_SLOTS;
                    session.partner_items = list;
                    PartnerItemsOutcome::Applied { over_capacity }
                },
            }
        },
    }
}

/// The partner's staged gold.
pub fn on_partner_gold(state: &mut ExchangeState, gold: u64) -> (applied: bool)
    ensures
        applied == (old(state)@ is Some),
        match old(state)@ {
            None => final(state)@ is None,
            Some(s) => final(state)@ == Some(SessionView { partner_gold: gold, ..s }),
        },
{
    match &mut state.session {
        None => false,
        Some(session) => {
            session.partner_gold = gold;
            true
        },
    }
}

/// The partner locked their offer.
pub fn on_partner_confirmed(state: &mut ExchangeState)
    ensures
        match old(state)@ {
            None => final(state)@ is None,
            Some(s) => final(state)@ == Some(SessionView { partner_confirmed: true, ..s }),
        },
{
    if let Some(session) = &mut state.session {
        session.partner_confirmed = true;
    }
}

/// The ack for our confirm. Only a successful ack locks our side; a refusal
/// leaves the window editable.
pub fn on_confirm_response(state: &mut ExchangeState, success: bool)
    ensures
        match old(state)@ {
            None => final(state)@ is None,
            Some(s) => final(state)@ == (if success {
                Some(SessionView { own_confirmed: true, ..s })
            } else {
                Some(s)
            }),
        },
{
    if let Some(session) = &mut state.session {
        if success {
            session.own_confirmed = true;
        }
    }
}

/// The ack for our approve.
pub fn on_approve_response(state: &mut ExchangeState, success: bool)
    ensures
        match old(state)@ {
            None => final(state)@ is None,
            Some(s) => final(state)@ == (if success {
                Some(SessionView { own_approved: true, ..s })
            } else {
                Some(s)
            }),
        },
{
    if let Some(session) = &mut state.session {
        if success {
            session.own_approved = true;
        }
    }
}

/// The trade was called off by the peer or the server. Returns whether a
/// trade was open.
pub fn on_exchange_canceled(state: &mut ExchangeState) -> (was_open: bool)
    ensures
        was_open == (old(state)@ is Some),
        final(state)@ is None,
{
    let was_open = state.session.is_some();
    state.session = None;
    was_open
}

/// The ack for our exit. The window closes on the ack, not on the click, so
/// a refused exit keeps the trade open. Returns whether a trade was closed.
pub fn on_exit_response(state: &mut ExchangeState, success: bool) -> (closed: bool)
    ensures
        closed == (success && old(state)@ is Some),
        final(state)@ == (if success {
            None
        } else {
            old(state)@
        }),
{
    if !success {
        return false;
    }
    let was_open = state.session.is_some();
    state.session = None;
    was_open
}

// --- the window -----------------------------------------------------------------

/// What the window's single action button sends when pressed.
#[derive(Clone, Copy, Debug, PartialEq, Eq, Structural)]
pub enum ExchangeAction {
    /// Lock our offer.
    Confirm,
    /// Approve the trade.
    Approve,
    /// Nothing: our side is locked and approve is not open (yet or any more).
    Nothing,
}

/// The one action button sends confirm while our offer is open and approve
/// once both sides are locked — the two-stage lock, from one control.
pub fn action_button_press(session: &ExchangeSession) -> (action: ExchangeAction)
    ensures
        action == (if session@.can_confirm() {
            ExchangeAction::Confirm
        } else if session@.can_approve() {
            ExchangeAction::Approve
        } else {
            ExchangeAction::Nothing
        }),
{
    if session.can_confirm() {
        ExchangeAction::Confirm
    } else if session.can_approve() {
        ExchangeAction::Approve
    } else {
        ExchangeAction::Nothing
    }
}

/// Whether the action button is enabled: it is whenever a press would send
/// something.
pub fn action_enabled(session: &ExchangeSession) -> (enabled: bool)
    ensures
        enabled == (session@.can_confirm() || session@.can_approve()),
{
    session.can_confirm() || session.can_approve()
}

/// Which pane a slot belongs to.
#[derive(Clone, Copy, Debug, PartialEq, Eq, Structural)]
pub enum ExchangeSide {
    /// The trade partner, top pane, slot ids 100-111.
    Partner,
    /// Us, bottom pane, slot ids 200-211.
    Own,
}

/// Slot grid: 12 per pane, 32x32 art on a 36 px pitch from x=21.
pub const SLOT_COLS: usize = 6;
pub const SLOT_ROWS: usize = 2;
pub const SLOT_SIZE: i32 = 32;
pub const SLOT_PITCH: i32 = 36;
pub const SLOT_X0: i32 = 21;

impl ExchangeSide {
    /// The window's slot id for this pane's `index`, i.e. 100+i / 200+i.
    pub fn slot_id(self, index: usize) -> (id: u16)
        requires
            index < EXCHANGE_SLOTS,
        ensures
            id == (match self {
                ExchangeSide::Partner => 100int,
                ExchangeSide::Own => 200int,
            }) + index,
    {
        let base: u16 = match self {
            ExchangeSide::Partner => 100,
            ExchangeSide::Own => 200,
        };
        base + index as u16
    }

    /// The top of each of the pane's two slot rows. The panes are not
    /// symmetric: ours sits one pixel above its lattice.
    pub open spec fn row_origin(self, row: int) -> i32 {
        match self {
            ExchangeSide::Partner => if row == 0 {
                72
            } else {
                108
            },
            ExchangeSide::Own => if row == 0 {
                215
            } else {
                251
            },
        }
    }

    pub fn row_origins(self) -> (ys: [i32; 2])
        ensures
            ys@[0] == self.row_origin(0),
            ys@[1] == self.row_origin(1),
    {
        match self {
            ExchangeSide::Partner => [72, 108],
            ExchangeSide::Own => [215, 251],
        }
    }
}

/// The slot rect `(x, y, w, h)` for `index` within a pane, in window space.
pub fn slot_rect(side: ExchangeSide, index: usize) -> (rect: (i32, i32, i32, i32))
    requires
        index < EXCHANGE_SLOTS,
    ensures
        rect.0 == SLOT_X0 + (index % SLOT_COLS) * SLOT_PITCH,
        rect.1 == side.row_origin((index / SLOT_COLS) as int),
        rect.2 == SLOT_SIZE,
        rect.3 == SLOT_SIZE,
{
    let row = index / SLOT_COLS;
    let col = index % SLOT_COLS;
    let ys = side.row_origins();
    (SLOT_X0 + col as i32 * SLOT_PITCH, ys[row], SLOT_SIZE, SLOT_SIZE)
}

// --- completion: the local transfer -------------------------------------------

/// The slots with each of `own`'s source slots emptied, in order.
pub open spec fn clear_slots(
    slots: Seq<Option<InventoryItem>>,
    own: Seq<InventoryItem>,
) -> Seq<Option<InventoryItem>>
    decreases own.len(),
{
    if own.len() == 0 {
        slots
    } else {
        let s = own[0].slot as int;
        let cleared = if s < slots.len() {
            slots.update(s, None)
        } else {
            slots
        };
        clear_slots(cleared, own.drop_first())
    }
}

/// The slots after `items` land, in order, each in the first free bag slot,
/// stopping at the first item for which no slot is left.
pub open spec fn place_items(
    slots: Seq<Option<InventoryItem>>,
    items: Seq<InventoryItem>,
) -> Seq<Option<InventoryItem>>
    decreases items.len(),
{
    if items.len() == 0 {
        slots
    } else {
        match first_free_bag_slot_of(slots) {
            None => slots,
            Some(f) => place_items(slots.update(f, Some(items[0].at_slot(f))), items.drop_first()),
        }
    }
}

/// How many of `items` find a slot.
pub open spec fn placed_count(slots: Seq<Option<InventoryItem>>, items: Seq<InventoryItem>) -> nat
    decreases items.len(),
{
    if items.len() == 0 {
        0
    } else {
        match first_free_bag_slot_of(slots) {
            None => 0,
            Some(f) => 1 + placed_count(
                slots.update(f, Some(items[0].at_slot(f))),
                items.drop_first(),
            ),
        }
    }
}

/// The bag after a completed trade: our staged records leave their slots,
/// then the partner's records land in the first free bag slots.
pub open spec fn completed_slots(
    slots: Seq<Option<InventoryItem>>,
    own: Seq<InventoryItem>,
    partner: Seq<InventoryItem>,
) -> Seq<Option<InventoryItem>> {
    place_items(clear_slots(slots, own), partner)
}

// --- a staged item's labels ------------------------------------------------------

/// The count a staged record carries: a stack's pieces or a magic cube's
/// elixirs; 0 for anything else.
pub open spec fn item_count(data: ItemTypeData) -> nat {
    match data {
        ItemTypeData::Expendable { stack_count } => stack_count as nat,
        ItemTypeData::MagicCube { elixir_count } => elixir_count as nat,
        _ => 0,
    }
}

/// The count label a trade slot draws in its lower right corner: the count,
/// only when it exceeds one.
pub fn count_label(data: ItemTypeData) -> (label: Option<String>)
    ensures
        match label {
            Some(l) => item_count(data) > 1 && l@ == decimal(item_count(data)),
            None => item_count(data) <= 1,
        },
{
    let count: u32 = match data {
        ItemTypeData::Expendable { stack_count } => stack_count as u32,
        ItemTypeData::MagicCube { elixir_count } => elixir_count,
        _ => 0,
    };
    if count > 1 {
        let mut out: Vec<char> = Vec::new();
        push_decimal(&mut out, count as u64);
        proof {
            assert(out@ =~= decimal(count as nat));
        }
        Some(string_of(&out))
    } else {
        None
    }
}

/// The reinforcement label a trade slot draws in its upper right corner:
/// `+n` for equipment at option level `n > 0`.
pub fn option_label(data: ItemTypeData) -> (label: Option<String>)
    ensures
        match label {
            Some(l) => data matches ItemTypeData::Equipment { opt_level } && opt_level > 0 && l@
                == seq!['+'] + decimal(opt_level as nat),
            None => !(data matches ItemTypeData::Equipment { opt_level } && opt_level > 0),
        },
{
    match data {
        ItemTypeData::Equipment { opt_level } => {
            if opt_level > 0 {
                let mut out: Vec<char> = Vec::new();
                out.push('+');
                push_decimal(&mut out, opt_level as u64);
                proof {
                    assert(out@ =~= seq!['+'] + decimal(opt_level as nat));
                }
                Some(string_of(&out))
            } else {
                None
            }
        },
        _ => None,
    }
}

/// What a completion did.
#[derive(Clone, Copy, Debug, PartialEq, Eq, Structural)]
pub enum CompletionOutcome {
    /// No trade was open; nothing changed.
    NoSession,
    /// The trade went through; `placed` partner records landed, and
    /// `out_of_room` says whether some found no free bag slot.
    Completed { placed: usize, out_of_room: bool },
}

/// The trade went through. The client applies the transfer locally: the
/// partner's staged records land in our first free bag slots and our own
/// staged records leave the bag. Gold is deliberately not touched — the
/// server sends the authoritative total separately.
pub fn on_exchange_completed(state: &mut ExchangeState, inventory: &mut Inventory) -> (outcome:
    CompletionOutcome)
    requires
        old(inventory).wf(),
    ensures
        final(state)@ is None,
        final(inventory).gold == old(inventory).gold,
        final(inventory).wf(),
        match old(state)@ {
            None => outcome == CompletionOutcome::NoSession && final(inventory).slots@ == old(
                inventory,
            ).slots@,
            Some(s) => {
                let cleared = clear_slots(old(inventory).slots@, s.own_items);
                &&& final(inventory).slots@ == completed_slots(
                    old(inventory).slots@,
                    s.own_items,
                    s.partner_items,
                )
                &&& outcome == (CompletionOutcome::Completed {
                    placed: placed_count(cleared, s.partner_items) as usize,
                    out_of_room: placed_count(cleared, s.partner_items) < s.partner_items.len(),
                })
            },
        },
{
    let session = match state.session.take() {
        None => return CompletionOutcome::NoSession,
        Some(session) => session,
    };
    let ghost own = session.own_items@;
    let ghost partner = session.partner_items@;
    let ghost start = inventory.slots@;
    let ghost cleared = clear_slots(start, own);

    let mut i: usize = 0;
    proof {
        assert(own.skip(0) =~= own);
    }
    while i < session.own_items.len()
        invariant
            own == session.own_items@,
            i <= own.len(),
            inventory.slots@.len() == start.len(),
            inventory.gold == old(inventory).gold,
            clear_slots(inventory.slots@, own.skip(i as int)) == cleared,
        decreases own.len() - i,
    {
        let slot = session.own_items[i].slot as usize;
        proof {
            assert(own.skip(i as int).drop_first() =~= own.skip(i + 1));
            assert(own.skip(i as int)[0] == own[i as int]);
        }
        if slot < inventory.slots.len() {
            inventory.slots.set(slot, None);
        }
        i = i + 1;
    }
    proof {
        assert(own.skip(i as int) =~= Seq::<InventoryItem>::empty());
        assert(inventory.slots@ == cleared);
    }

    let mut j: usize = 0;
    let mut placed: usize = 0;
    let mut out_of_room = false;
    proof {
        assert(partner.skip(0) =~= partner);
    }
    while j < session.partner_items.len() && !out_of_room
        invariant
            partner == session.partner_items@,
            j <= partner.len(),
            placed == j,
            inventory.slots@.len() == start.len(),
            start.len() <= 256,
            inventory.gold == old(inventory).gold,
            out_of_room ==> j < partner.len() && first_free_bag_slot_of(inventory.slots@) is None,
            place_items(inventory.slots@, partner.skip(j as int)) == place_items(cleared, partner),
            placed + placed_count(inventory.slots@, partner.skip(j as int)) == placed_count(
                cleared,
                partner,
            ),
        decreases partner.len() - j, (if out_of_room { 0int } else { 1int }),
    {
        proof {
            assert(partner.skip(j as int).drop_first() =~= partner.skip(j + 1));
            assert(partner.skip(j as int)[0] == partner[j as int]);
        }
        let free = inventory.first_free_bag_slot();
        match free {
            None => {
                out_of_room = true;
            },
            Some(f) => {
                proof {
                    lemma_first_free_from(inventory.slots@, BAG_FIRST_SLOT as int);
                }
                let item = session.partner_items[j];
                let moved = InventoryItem { slot: f, ..item };
                inventory.gain_item(moved);
                placed = placed + 1;
                j = j + 1;
            },
        }
    }
    proof {
        if !out_of_room {
            assert(partner.skip(j as int) =~= Seq::<InventoryItem>::empty());
        }
    }
    CompletionOutcome::Completed { placed, out_of_room }
}


/// Placing items only ever fills free bag slots: equipment slots and slots
/// that already hold a record keep what they hold, and every record placed
/// names the slot it now sits in.
pub proof fn lemma_place_items_fills_only_free_bag_slots(
    slots: Seq<Option<InventoryItem>>,
    items: Seq<InventoryItem>,
)
    requires
        slots.len() <= 256,
    ensures
        place_items(slots, items).len() == slots.len(),
        forall|i: int|
            0 <= i < slots.len() && (i < BAG_FIRST_SLOT || slots[i] is Some) ==> #[trigger] place_items(
                slots,
                items,
            )[i] == slots[i],
        forall|i: int|
            0 <= i < slots.len() && slots[i] is None && #[trigger] place_items(slots, items)[i] is Some
                ==> place_items(slots, items)[i]->0.slot as int == i,
    decreases items.len(),
{
    if items.len() > 0 {
        match first_free_bag_slot_of(slots) {
            None => {},
            Some(f) => {
                lemma_first_free_from(slots, BAG_FIRST_SLOT as int);
                let next = slots.update(f, Some(items[0].at_slot(f)));
                lemma_place_items_fills_only_free_bag_slots(next, items.drop_first());
                assert forall|i: int|
                    0 <= i < slots.len() && slots[i] is None && #[trigger] place_items(
                        slots,
                        items,
                    )[i] is Some implies place_items(slots, items)[i]->0.slot as int == i by {
                    if i == f {
                        assert(next[i] is Some);
                        assert((f as u8) as int == f);
                    }
                }
            },
        }
    }
}

/// A completed trade never writes an equipment slot or a slot that still
/// holds a record once our own staged records have left: the partner's
/// records only fill free bag slots, and each names the slot it lands in.
pub proof fn law_completion_fills_only_free_bag_slots(
    slots: Seq<Option<InventoryItem>>,
    own: Seq<InventoryItem>,
    partner: Seq<InventoryItem>,
)
    requires
        slots.len() <= 256,
    ensures
        completed_slots(slots, own, partner).len() == slots.len(),
        forall|i: int|
            0 <= i < BAG_FIRST_SLOT && i < slots.len() ==> #[trigger] completed_slots(
                slots,
                own,
                partner,
            )[i] == clear_slots(slots, own)[i],
        forall|i: int|
            0 <= i < slots.len() && clear_slots(slots, own)[i] is Some ==> #[trigger] completed_slots(
                slots,
                own,
                partner,
            )[i] == clear_slots(slots, own)[i],
{
    lemma_clear_slots_len(slots, own);
    lemma_place_items_fills_only_free_bag_slots(clear_slots(slots, own), partner);
}

/// Emptying source slots never changes the slot count.
pub proof fn lemma_clear_slots_len(slots: Seq<Option<InventoryItem>>, own: Seq<InventoryItem>)
    ensures
        clear_slots(slots, own).len() == slots.len(),
    decreases own.len(),
{
    if own.len() > 0 {
        let s = own[0].slot as int;
        let cleared = if s < slots.len() {
            slots.update(s, None)
        } else {
            slots
        };
        lemma_clear_slots_len(cleared, own.drop_first());
    }
}

/// Approve is never offered unless both sides have locked their offers.
pub proof fn law_approve_needs_both_locks(s: SessionView)
    ensures
        s.can_approve() ==> s.own_confirmed && s.partner_confirmed,
        s.can_approve() ==> !s.can_confirm(),
{
}

/// Clearing never fills a slot: an empty slot stays empty.
proof fn lemma_clear_slots_keeps_empty(slots: Seq<Option<InventoryItem>>, own: Seq<InventoryItem>, k: int)
    requires
        0 <= k < slots.len(),
        slots[k] is None,
    ensures
        (clear_slots(slots, own)[k] is None),
    decreases own.len(),
{
    if own.len() > 0 {
        let s = own[0].slot as int;
        let cleared = if s < slots.len() {
            slots.update(s, None)
        } else {
            slots
        };
        lemma_clear_slots_keeps_empty(cleared, own.drop_first(), k);
    }
}

/// After a completion none of our staged records is left in the bag: every
/// slot one of them came from is empty, and every slot none of them names
/// keeps what it held.
pub proof fn law_staged_records_leave_the_bag(slots: Seq<Option<InventoryItem>>, own: Seq<InventoryItem>)
    ensures
        clear_slots(slots, own).len() == slots.len(),
        forall|i: int| 0 <= i < own.len() && (own[i].slot as int) < slots.len() ==> (#[trigger] clear_slots(slots, own)[own[i].slot as int] is None),
        forall|k: int| 0 <= k < slots.len() && (forall|i: int| 0 <= i < own.len() ==> own[i].slot as int != k) ==> #[trigger] clear_slots(slots, own)[k] == slots[k],
    decreases own.len(),
{
    lemma_clear_slots_len(slots, own);
    if own.len() > 0 {
        let s = own[0].slot as int;
        let cleared = if s < slots.len() {
            slots.update(s, None)
        } else {
            slots
        };
        let rest = own.drop_first();
        law_staged_records_leave_the_bag(cleared, rest);
        assert forall|i: int| 0 <= i < own.len() && (own[i].slot as int) < slots.len() implies #[trigger] clear_slots(slots, own)[own[i].slot as int] is None by {
            if i == 0 {
                lemma_clear_slots_keeps_empty(cleared, rest, s);
            } else {
                assert(rest[i - 1] == own[i]);
            }
        }
        assert forall|k: int| 0 <= k < slots.len() && (forall|i: int| 0 <= i < own.len() ==> own[i].slot as int != k) implies #[trigger] clear_slots(slots, own)[k] == slots[k] by {
            assert(own[0].slot as int != k);
            assert forall|i: int| 0 <= i < rest.len() implies rest[i].slot as int != k by {
                assert(rest[i] == own[i + 1]);
            }
        }
    }
}

/// Whether we may lock our offer does not depend on the partner: their
/// confirm (or its absence) never offers or withdraws our confirm, and a
/// session whose own side is unlocked always presses to confirm.
pub proof fn law_confirm_ignores_the_partner(s: SessionView, partner_confirmed: bool)
    ensures
        (SessionView { partner_confirmed, ..s }).can_confirm() == s.can_confirm(),
        !s.own_confirmed ==> s.can_confirm(),
        s.own_confirmed ==> !s.can_confirm(),
{
}

} // verus!
