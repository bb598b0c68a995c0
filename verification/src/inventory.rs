//! The item records and slot arrays the HUD windows mirror: the player's bag
//! (and the guild warehouse, which reuses the same shape).
use vstd::prelude::*;

verus! {

/// Slots below this index are equipment; the bag starts here.
pub const BAG_FIRST_SLOT: u8 = 13;

/// What kind of record an item is, as far as the HUD draws it.
#[derive(Clone, Copy, Debug, PartialEq, Eq, Structural)]
pub enum ItemTypeData {
    /// A piece of equipment; `opt_level` is its `+n` reinforcement.
    Equipment { opt_level: u8 },
    /// A stackable; `stack_count` is the number of pieces in the slot.
    Expendable { stack_count: u16 },
    /// A magic cube; `elixir_count` is the elixirs it holds.
    MagicCube { elixir_count: u32 },
    Other,
}

/// One item record: the slot it occupies and what it is.
#[derive(Clone, Copy, Debug, PartialEq, Eq, Structural)]
pub struct InventoryItem {
    pub slot: u8,
    pub ref_id: u32,
    pub data: ItemTypeData,
}

impl InventoryItem {
    /// The same record, moved to `slot`.
    pub open spec fn at_slot(self, slot: int) -> InventoryItem {
        InventoryItem { slot: slot as u8, ..self }
    }
}

/// A slot array plus the gold that goes with it.
pub struct Inventory {
    pub slots: Vec<Option<InventoryItem>>,
    pub gold: u64,
}

/// The first free bag slot at or after `from`, if any.
pub open spec fn first_free_from(slots: Seq<Option<InventoryItem>>, from: int) -> Option<int>
    decreases slots.len() - from,
{
    if from < 0 || from >= slots.len() {
        None
    } else if slots[from] is None {
        Some(from)
    } else {
        first_free_from(slots, from + 1)
    }
}

/// The first free bag slot (equipment slots are never free for a new item).
pub open spec fn first_free_bag_slot_of(slots: Seq<Option<InventoryItem>>) -> Option<int> {
    first_free_from(slots, BAG_FIRST_SLOT as int)
}

/// What `first_free_from` finds: a free slot in range, with everything
/// between `from` and it occupied.
pub proof fn lemma_first_free_from(slots: Seq<Option<InventoryItem>>, from: int)
    requires
        0 <= from,
    ensures
        match first_free_from(slots, from) {
            Some(f) => from <= f < slots.len() && slots[f] is None && forall|j: int|
                from <= j < f ==> slots[j] is Some,
            None => forall|j: int| from <= j < slots.len() ==> slots[j] is Some,
        },
    decreases slots.len() - from,
{
    if from < slots.len() && !(slots[from] is None) {
        lemma_first_free_from(slots, from + 1);
    }
}

impl Inventory {
    /// Slot arrays are indexed by a `u8` slot number.
    pub open spec fn wf(&self) -> bool {
        self.slots@.len() <= 256
    }

    /// Number of slots.
    pub fn size(&self) -> (n: usize)
        ensures
            n == self.slots@.len(),
    {
        self.slots.len()
    }

    /// The record in `slot`, if any.
    pub fn get(&self, slot: u8) -> (item: Option<InventoryItem>)
        ensures
            item == (if (slot as int) < self.slots@.len() {
                self.slots@[slot as int]
            } else {
                None
            }),
    {
        if (slot as usize) < self.slots.len() {
            self.slots[slot as usize]
        } else {
            None
        }
    }

    /// Put `item` into the slot it names.
    pub fn gain_item(&mut self, item: InventoryItem)
        requires
            (item.slot as int) < old(self).slots@.len(),
        ensures
            final(self).slots@ == old(self).slots@.update(item.slot as int, Some(item)),
            final(self).gold == old(self).gold,
    {
        let i = item.slot as usize;
        self.slots.set(i, Some(item));
    }

    /// First free bag slot (equipment slots are below [`BAG_FIRST_SLOT`]).
    pub fn first_free_bag_slot(&self) -> (slot: Option<u8>)
        requires
            self.wf(),
        ensures
            match first_free_bag_slot_of(self.slots@) {
                Some(f) => slot == Some(f as u8),
                None => slot is None,
            },
    {
        let mut i: usize = BAG_FIRST_SLOT as usize;
        while i < self.slots.len()
            invariant
                self.wf(),
                BAG_FIRST_SLOT <= i,
                first_free_from(self.slots@, i as int) == first_free_bag_slot_of(self.slots@),
            decreases self.slots.len() - i,
        {
            if self.slots[i].is_none() {
                return Some(i as u8);
            }
            i = i + 1;
        }
        None
    }
}

// --- the paper doll ---------------------------------------------------------------

/// Slots `0..EQUIP_SLOT_COUNT` are the equipment the character wears.
pub const EQUIP_SLOT_COUNT: u8 = 13;

/// The ref ids worn in the first `n` slots, in slot order, skipping empty ones.
pub open spec fn equipped_refs(slots: Seq<Option<InventoryItem>>, n: nat) -> Seq<u32>
    decreases n,
{
    if n == 0 {
        Seq::empty()
    } else {
        let before = equipped_refs(slots, (n - 1) as nat);
        let s = n - 1;
        if s < slots.len() {
            match slots[s] {
                Some(item) => before.push(item.ref_id),
                None => before,
            }
        } else {
            before
        }
    }
}

/// The equipped ref ids the paper-doll clone wears, in slot order.
pub fn equipment_refs(inventory: &Inventory) -> (refs: Vec<u32>)
    ensures
        refs@ == equipped_refs(inventory.slots@, EQUIP_SLOT_COUNT as nat),
{
    let mut refs: Vec<u32> = Vec::new();
    let mut slot: u8 = 0;
    while slot < EQUIP_SLOT_COUNT
        invariant
            slot <= EQUIP_SLOT_COUNT,
            refs@ == equipped_refs(inventory.slots@, slot as nat),
        decreases EQUIP_SLOT_COUNT - slot,
    {
        match inventory.get(slot) {
            Some(item) => refs.push(item.ref_id),
            None => {},
        }
        slot = slot + 1;
    }
    refs
}

/// What the paper doll does this frame.
#[derive(Clone, Copy, Debug, PartialEq, Eq, Structural)]
pub enum PaperDollStep {
    /// The clone already wears this equipment.
    Keep,
    /// Build a clone; `despawn_old` says a stale one must go first.
    Build { despawn_old: bool },
}

fn same_refs(a: &Vec<u32>, b: &Vec<u32>) -> (r: bool)
    ensures
        r == (a@ == b@),
{
    if a.len() != b.len() {
        return false;
    }
    let mut i: usize = 0;
    while i < a.len()
        invariant
            a@.len() == b@.len(),
            i <= a@.len(),
            forall|j: int| 0 <= j < i ==> a@[j] == b@[j],
        decreases a@.len() - i,
    {
        if a[i] != b[i] {
            return false;
        }
        i = i + 1;
    }
    proof {
        assert(a@ =~= b@);
    }
    true
}

/// Rebuild the paper-doll clone when the worn equipment changes: a clone
/// wearing exactly `equipment` stays, a stale one is replaced, and with none
/// one is built.
pub fn paperdoll_step(clone_equipment: Option<&Vec<u32>>, equipment: &Vec<u32>) -> (step:
    PaperDollStep)
    ensures
        step == match clone_equipment {
            Some(worn) => if worn@ == equipment@ {
                PaperDollStep::Keep
            } else {
                PaperDollStep::Build { despawn_old: true }
            },
            None => PaperDollStep::Build { despawn_old: false },
        },
{
    match clone_equipment {
        Some(worn) => if same_refs(worn, equipment) {
            PaperDollStep::Keep
        } else {
            PaperDollStep::Build { despawn_old: true }
        },
        None => PaperDollStep::Build { despawn_old: false },
    }
}

} // verus!
