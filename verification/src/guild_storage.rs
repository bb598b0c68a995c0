//! Guild storage (guild warehouse) session state.
//!
//! The item stream is a reply, not a push: a successful open ack is answered
//! with a list request, and the contents arrive as a begin packet (carrying
//! the guild's gold), any number of chunks that mean nothing alone, and an
//! end marker at which the accumulated bytes are parsed. The warehouse is a
//! guild-wide exclusive lock, so leaving the NPC's dialog must close it.
use vstd::prelude::*;
use crate::inventory::{Inventory, InventoryItem};

verus! {

pub const IN_USE_KEY: &'static str = "UIIT_MSG_GUILD_WAREHOUSE_USE";
pub const IN_USE_FALLBACK: &'static str =
    "At the moment guild member %s is using guild storage, so it cannot be opened.";
pub const LEVEL_KEY: &'static str = "UIIT_MSG_GUILD_WAREHOUSE_LIMIT";
pub const LEVEL_FALLBACK: &'static str = "Guild level must be 2 or higher to use guild storage.";
pub const DENIED_KEY: &'static str = "UIIT_MSG_GUILDERR_PERMISSION_DENIED";
pub const DENIED_FALLBACK: &'static str = "You are not authorized.";

/// The guild level the client's own string names as the minimum.
pub const MIN_GUILD_LEVEL: u8 = 2;

/// A guild member's permission bits.
#[derive(Clone, Copy, Debug, PartialEq, Eq, Structural)]
pub struct GuildPermissions(pub u32);

impl GuildPermissions {
    pub const JOIN: u32 = 1;
    pub const WITHDRAW: u32 = 2;
    pub const UNION: u32 = 4;
    /// The bit that lets a member use the warehouse.
    pub const STORAGE: u32 = 8;
    pub const NOTICE: u32 = 16;
    /// Every named bit.
    pub const ALL: u32 = 31;
    /// The master's sentinel: every bit set.
    pub const MASTER: u32 = 0xFFFF_FFFF;

    pub open spec fn spec_can_use_storage(self) -> bool {
        self.0 & 8u32 != 0
    }

    pub fn can_use_storage(&self) -> (b: bool)
        ensures
            b == self.spec_can_use_storage(),
    {
        self.0 & Self::STORAGE != 0
    }
}

/// Why an open attempt did not reach the wire.
#[derive(Clone, Copy, Debug, PartialEq, Eq, Structural)]
pub enum GuildStorageGate {
    Allowed,
    /// The player is in no guild, or is not in the pushed roster.
    NotAMember,
    /// In the guild, without the storage bit.
    NotAuthorized,
    /// Guild level below [`MIN_GUILD_LEVEL`].
    GuildLevelTooLow,
}

pub open spec fn spec_gate(level: Option<u8>, permissions: Option<GuildPermissions>) -> GuildStorageGate {
    match (level, permissions) {
        (Some(level), Some(permissions)) => if level < MIN_GUILD_LEVEL {
            GuildStorageGate::GuildLevelTooLow
        } else if !permissions.spec_can_use_storage() {
            GuildStorageGate::NotAuthorized
        } else {
            GuildStorageGate::Allowed
        },
        _ => GuildStorageGate::NotAMember,
    }
}

/// The client-side gate the client's own strings advertise: guild
/// membership, then the guild level, then the storage permission bit.
pub fn gate(level: Option<u8>, permissions: Option<GuildPermissions>) -> (g: GuildStorageGate)
    ensures
        g == spec_gate(level, permissions),
{
    match (level, permissions) {
        (Some(level), Some(permissions)) => {
            if level < MIN_GUILD_LEVEL {
                GuildStorageGate::GuildLevelTooLow
            } else if !permissions.can_use_storage() {
                GuildStorageGate::NotAuthorized
            } else {
                GuildStorageGate::Allowed
            }
        },
        _ => GuildStorageGate::NotAMember,
    }
}

/// The `(key, fallback)` of the line a refused gate shows, `None` when the
/// gate is open. Membership and permission share the guild family's own
/// permission refusal.
pub fn refusal_message(g: GuildStorageGate) -> (m: Option<(&'static str, &'static str)>)
    ensures
        match g {
            GuildStorageGate::Allowed => m is None,
            GuildStorageGate::GuildLevelTooLow => m == Some((LEVEL_KEY, LEVEL_FALLBACK)),
            _ => m == Some((DENIED_KEY, DENIED_FALLBACK)),
        },
{
    match g {
        GuildStorageGate::Allowed => None,
        GuildStorageGate::GuildLevelTooLow => Some((LEVEL_KEY, LEVEL_FALLBACK)),
        GuildStorageGate::NotAuthorized | GuildStorageGate::NotAMember => Some(
            (DENIED_KEY, DENIED_FALLBACK),
        ),
    }
}

/// The open warehouse session: the NPC entity and its network id (the close
/// request needs the same id the open carried).
#[derive(Clone, Copy, Debug, PartialEq, Eq, Structural)]
pub struct GuildStorageSession {
    pub npc: u64,
    pub npc_id: u32,
}

/// The warehouse as the server last described it.
pub struct GuildStorageState {
    pub session: Option<GuildStorageSession>,
    /// Slots plus the guild account's gold, mirrored only from server packets.
    pub items: Inventory,
    /// The item stream arrived for this session.
    pub synced: bool,
}

/// The chunks between a begin and its end.
pub struct GuildStorageDataBuffer(pub Vec<u8>);

impl GuildStorageState {
    pub fn new() -> (s: GuildStorageState)
        ensures
            s.session is None,
            s.items.slots@.len() == 0,
            s.items.gold == 0,
            !s.synced,
    {
        GuildStorageState {
            session: None,
            items: Inventory { slots: Vec::new(), gold: 0 },
            synced: false,
        }
    }
}

/// What an open request came to.
#[derive(Clone, Copy, Debug, PartialEq, Eq, Structural)]
pub enum OpenOutcome {
    /// The NPC has no network id to address; nothing happens.
    NoNetworkId,
    /// The access check refused; nothing reaches the wire.
    Refused(GuildStorageGate),
    /// A fresh session is set up; send the open request for `npc_unique_id`.
    Requested { npc_unique_id: u32 },
}

/// The dialog's "Use guild storage." option: run the access check, then start a
/// fresh session and ask the server to open.
pub fn open_guild_storage(
    state: &mut GuildStorageState,
    buffer: &mut GuildStorageDataBuffer,
    npc: u64,
    npc_id: Option<u32>,
    level: Option<u8>,
    permissions: Option<GuildPermissions>,
) -> (outcome: OpenOutcome)
    ensures
        match npc_id {
            None => outcome == OpenOutcome::NoNetworkId,
            Some(id) => if spec_gate(level, permissions) != GuildStorageGate::Allowed {
                outcome == OpenOutcome::Refused(spec_gate(level, permissions))
            } else {
                &&& outcome == (OpenOutcome::Requested { npc_unique_id: id })
                &&& final(state).session == Some(GuildStorageSession { npc, npc_id: id })
                &&& final(state).items.slots@.len() == 0
                &&& final(state).items.gold == 0
                &&& !final(state).synced
                &&& final(buffer).0@.len() == 0
            },
        },
        !(outcome is Requested) ==> {
            &&& final(state).session == old(state).session
            &&& final(state).items.slots@ == old(state).items.slots@
            &&& final(state).items.gold == old(state).items.gold
            &&& final(state).synced == old(state).synced
            &&& final(buffer).0@ == old(buffer).0@
        },
{
    let id = match npc_id {
        None => return OpenOutcome::NoNetworkId,
        Some(id) => id,
    };
    let g = gate(level, permissions);
    match g {
        GuildStorageGate::Allowed => {},
        _ => return OpenOutcome::Refused(g),
    }
    state.session = Some(GuildStorageSession { npc, npc_id: id });
    state.items = Inventory { slots: Vec::new(), gold: 0 };
    state.synced = false;
    buffer.0.clear();
    OpenOutcome::Requested { npc_unique_id: id }
}

/// What to do with the open ack.
#[derive(Clone, Copy, Debug, PartialEq, Eq, Structural)]
pub enum ResponseAction {
    /// Refused because another member holds the guild-wide lock; show the
    /// in-use line with the holder's name.
    InUse,
    /// Refused with a code nothing names; report it verbatim.
    Refused,
    /// A success with no session of ours open; not listing.
    Unsolicited,
    /// Success: ask for the contents with this storage id.
    List { storage_id: u32 },
}

/// The open ack. On success the client itself asks for the item stream,
/// echoing the NPC id it opened with.
pub fn on_guild_storage_response(state: &GuildStorageState, success: bool, has_lock_holder: bool) -> (action: ResponseAction)
    ensures
        action == (if !success {
            if has_lock_holder {
                ResponseAction::InUse
            } else {
                ResponseAction::Refused
            }
        } else {
            match state.session {
                None => ResponseAction::Unsolicited,
                Some(s) => ResponseAction::List { storage_id: s.npc_id },
            }
        }),
{
    if !success {
        if has_lock_holder {
            return ResponseAction::InUse;
        }
        return ResponseAction::Refused;
    }
    match state.session {
        None => ResponseAction::Unsolicited,
        Some(s) => ResponseAction::List { storage_id: s.npc_id },
    }
}

/// The stream begins and carries the guild account's gold. Any stale chunks
/// are dropped.
pub fn on_guild_storage_begin(
    state: &mut GuildStorageState,
    buffer: &mut GuildStorageDataBuffer,
    gold: u64,
)
    ensures
        final(state).items.gold == gold,
        final(state).items.slots@ == old(state).items.slots@,
        final(state).session == old(state).session,
        final(state).synced == old(state).synced,
        final(buffer).0@ == Seq::<u8>::empty(),
{
    state.items.gold = gold;
    buffer.0.clear();
}

/// A chunk: accumulate, since the item section can span several packets.
pub fn on_guild_storage_chunk(buffer: &mut GuildStorageDataBuffer, raw: &[u8])
    ensures
        final(buffer).0@ == old(buffer).0@ + raw@,
{
    let ghost before = buffer.0@;
    let mut i: usize = 0;
    while i < raw.len()
        invariant
            i <= raw@.len(),
            buffer.0@ == before + raw@.subrange(0, i as int),
        decreases raw@.len() - i,
    {
        buffer.0.push(raw[i]);
        i = i + 1;
        proof {
            assert(buffer.0@ =~= before + raw@.subrange(0, i as int));
        }
    }
    proof {
        assert(raw@.subrange(0, raw@.len() as int) =~= raw@);
    }
}

/// The end marker: the accumulated chunks are complete. Hands back the
/// bytes to parse (`None` when no chunk arrived, which leaves the warehouse
/// unsynced) and empties the buffer, so a second stream cannot inherit them.
pub fn on_guild_storage_end(buffer: &mut GuildStorageDataBuffer) -> (raw: Option<Vec<u8>>)
    ensures
        final(buffer).0@ == Seq::<u8>::empty(),
        match raw {
            None => old(buffer).0@.len() == 0,
            Some(bytes) => old(buffer).0@.len() > 0 && bytes@ == old(buffer).0@,
        },
{
    let mut taken: Vec<u8> = Vec::new();
    std::mem::swap(&mut taken, &mut buffer.0);
    if taken.len() == 0 {
        None
    } else {
        Some(taken)
    }
}

/// The slot array with `item` in the slot it names, grown with empty slots
/// when it names one past the end.
pub open spec fn put_item(slots: Seq<Option<InventoryItem>>, item: InventoryItem) -> Seq<Option<InventoryItem>> {
    let i = item.slot as int;
    if i < slots.len() {
        slots.update(i, Some(item))
    } else {
        slots + Seq::new((i - slots.len()) as nat, |_j: int| None::<InventoryItem>) + seq![Some(item)]
    }
}

/// Every item put into `slots` in order.
pub open spec fn put_items(slots: Seq<Option<InventoryItem>>, items: Seq<InventoryItem>) -> Seq<Option<InventoryItem>>
    decreases items.len(),
{
    if items.len() == 0 {
        slots
    } else {
        put_items(put_item(slots, items[0]), items.drop_first())
    }
}

/// The warehouse laid out from a parsed item section: `size` empty slots,
/// then each record in the slot it names.
pub open spec fn storage_slots(size: nat, items: Seq<InventoryItem>) -> Seq<Option<InventoryItem>> {
    put_items(Seq::new(size, |_j: int| None::<InventoryItem>), items)
}

/// Lay out a parsed item section (`size` slots, then the records) and mark
/// the warehouse synced; the gold from the begin packet is kept.
pub fn apply_guild_storage_items(state: &mut GuildStorageState, size: u8, items: Vec<InventoryItem>)
    ensures
        final(state).items.slots@ == storage_slots(size as nat, items@),
        final(state).items.gold == old(state).items.gold,
        final(state).items.wf(),
        final(state).synced,
        final(state).session == old(state).session,
{
    let mut slots: Vec<Option<InventoryItem>> = Vec::new();
    let mut n: usize = 0;
    while n < size as usize
        invariant
            n <= size,
            slots@ == Seq::new(n as nat, |_j: int| None::<InventoryItem>),
        decreases size - n,
    {
        slots.push(None);
        n = n + 1;
        proof {
            assert(slots@ =~= Seq::new(n as nat, |_j: int| None::<InventoryItem>));
        }
    }
    let ghost target = storage_slots(size as nat, items@);
    let mut k: usize = 0;
    proof {
        assert(items@.skip(0) =~= items@);
    }
    while k < items.len()
        invariant
            k <= items@.len(),
            slots@.len() <= 256,
            put_items(slots@, items@.skip(k as int)) == target,
        decreases items@.len() - k,
    {
        let item = items[k];
        let index = item.slot as usize;
        proof {
            assert(items@.skip(k as int)[0] == item);
            assert(items@.skip(k as int).drop_first() =~= items@.skip(k + 1));
        }
        let ghost before = slots@;
        if index >= slots.len() {
            while slots.len() < index
                invariant
                    before.len() <= slots@.len() <= index,
                    slots@ == before + Seq::new((slots@.len() - before.len()) as nat, |_j: int| None::<InventoryItem>),
                decreases index - slots@.len(),
            {
                slots.push(None);
                proof {
                    assert(slots@ =~= before + Seq::new((slots@.len() - before.len()) as nat, |_j: int| None::<InventoryItem>));
                }
            }
            slots.push(Some(item));
            proof {
                assert(slots@ =~= put_item(before, item));
            }
        } else {
            slots.set(index, Some(item));
        }
        k = k + 1;
    }
    proof {
        assert(items@.skip(k as int) =~= Seq::<InventoryItem>::empty());
    }
    state.items.slots = slots;
    state.synced = true;
}

/// Leaving the warehouse NPC's dialog closes the session: a session left
/// open would lock the warehouse for the whole guild. Returns the NPC id the
/// close request must name, when a session was closed.
pub fn close_guild_storage_with_dialog(state: &mut GuildStorageState, dialog_npc: Option<u64>) -> (closed: Option<u32>)
    ensures
        match old(state).session {
            None => closed is None && final(state).session is None && final(state).synced == old(state).synced,
            Some(s) => if dialog_npc == Some(s.npc) {
                closed is None && final(state).session == old(state).session && final(state).synced == old(state).synced
            } else {
                closed == Some(s.npc_id) && final(state).session is None && !final(state).synced
            },
        },
        final(state).items.slots@ == old(state).items.slots@,
        final(state).items.gold == old(state).items.gold,
{
    let s = match state.session {
        None => return None,
        Some(s) => s,
    };
    match dialog_npc {
        Some(npc) => {
            if npc == s.npc {
                return None;
            }
        },
        None => {},
    }
    state.session = None;
    state.synced = false;
    Some(s.npc_id)
}

// --- laws ----------------------------------------------------------------------

/// The buffer after a begin and then each of `chunks`, in order.
pub open spec fn after_chunks(buffer: Seq<u8>, chunks: Seq<Seq<u8>>) -> Seq<u8>
    decreases chunks.len(),
{
    if chunks.len() == 0 {
        buffer
    } else {
        after_chunks(buffer + chunks[0], chunks.drop_first())
    }
}

/// The bytes an end marker hands to the parser are exactly the chunks since
/// the begin, joined in arrival order — however the section was split.
pub proof fn law_stream_is_the_joined_chunks(chunks: Seq<Seq<u8>>)
    ensures
        after_chunks(Seq::empty(), chunks) == chunks.flatten(),
{
    lemma_after_chunks(Seq::empty(), chunks);
    assert(Seq::<u8>::empty() + chunks.flatten() =~= chunks.flatten());
}

proof fn lemma_after_chunks(buffer: Seq<u8>, chunks: Seq<Seq<u8>>)
    ensures
        after_chunks(buffer, chunks) == buffer + chunks.flatten(),
    decreases chunks.len(),
{
    if chunks.len() > 0 {
        lemma_after_chunks(buffer + chunks[0], chunks.drop_first());
        assert(buffer + chunks[0] + chunks.drop_first().flatten() =~= buffer + (chunks[0]
            + chunks.drop_first().flatten()));
    }
}

/// The access check tests membership before anything else (a missing roster is
/// not "no permissions"), and it opens only for a member of a guild at the
/// minimum level or above who holds the storage bit.
pub proof fn law_gate_checks_membership_first(level: Option<u8>, permissions: Option<GuildPermissions>)
    ensures
        (level is None || permissions is None) ==> spec_gate(level, permissions) == GuildStorageGate::NotAMember,
        spec_gate(level, permissions) == GuildStorageGate::Allowed ==> level.unwrap() >= MIN_GUILD_LEVEL && permissions.unwrap().spec_can_use_storage(),
{
}

/// Putting one record: it lands in the slot it names, the array grows just
/// enough to hold that slot, and every other slot keeps what it held.
proof fn lemma_put_item(slots: Seq<Option<InventoryItem>>, item: InventoryItem)
    ensures
        put_item(slots, item).len() == if (item.slot as int) < slots.len() {
            slots.len() as int
        } else {
            item.slot as int + 1
        },
        put_item(slots, item)[item.slot as int] == Some(item),
        forall|k: int| 0 <= k < slots.len() && k != item.slot as int ==> #[trigger] put_item(slots, item)[k] == slots[k],
        forall|k: int| slots.len() <= k < put_item(slots, item).len() && k != item.slot as int ==> #[trigger] put_item(slots, item)[k] is None,
{
}

/// Putting records never shrinks the array, and a slot none of them names
/// keeps what it held.
proof fn lemma_put_items_keeps(slots: Seq<Option<InventoryItem>>, items: Seq<InventoryItem>, k: int)
    requires
        0 <= k < slots.len(),
        forall|j: int| 0 <= j < items.len() ==> items[j].slot as int != k,
    ensures
        put_items(slots, items).len() >= slots.len(),
        put_items(slots, items)[k] == slots[k],
    decreases items.len(),
{
    if items.len() > 0 {
        lemma_put_item(slots, items[0]);
        assert forall|j: int| 0 <= j < items.drop_first().len() implies items.drop_first()[j].slot as int != k by {
            assert(items.drop_first()[j] == items[j + 1]);
        }
        lemma_put_items_keeps(put_item(slots, items[0]), items.drop_first(), k);
    }
}

/// Every listed record lands in the slot it names, unless a later record
/// names the same slot (then the later one wins): the warehouse shows the
/// whole list, not a prefix of it.
pub proof fn law_every_listed_item_lands(slots: Seq<Option<InventoryItem>>, items: Seq<InventoryItem>, i: int)
    requires
        0 <= i < items.len(),
        forall|j: int| i < j < items.len() ==> #[trigger] items[j].slot != items[i].slot,
    ensures
        (items[i].slot as int) < put_items(slots, items).len(),
        put_items(slots, items)[items[i].slot as int] == Some(items[i]),
    decreases items.len(),
{
    lemma_put_item(slots, items[0]);
    let next = put_item(slots, items[0]);
    let rest = items.drop_first();
    if i == 0 {
        assert forall|j: int| 0 <= j < rest.len() implies rest[j].slot as int != items[0].slot as int by {
            assert(rest[j] == items[j + 1]);
        }
        lemma_put_items_keeps(next, rest, items[0].slot as int);
    } else {
        assert(rest[i - 1] == items[i]);
        assert forall|j: int| i - 1 < j < rest.len() implies #[trigger] rest[j].slot != rest[i - 1].slot by {
            assert(rest[j] == items[j + 1]);
        }
        law_every_listed_item_lands(next, rest, i - 1);
    }
}

/// A laid-out warehouse has at least its declared size, and each record of
/// the list that no later record overrides sits in the slot it names.
pub proof fn law_storage_holds_the_list(size: nat, items: Seq<InventoryItem>, i: int)
    requires
        0 <= i < items.len(),
        forall|j: int| i < j < items.len() ==> #[trigger] items[j].slot != items[i].slot,
    ensures
        storage_slots(size, items)[items[i].slot as int] == Some(items[i]),
{
    law_every_listed_item_lands(Seq::new(size, |_j: int| None::<InventoryItem>), items, i);
}

} // verus!
