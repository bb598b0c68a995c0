//! COS (summoned creature) pages: the pick pet's bag, the info page's level
//! and EXP inputs, and the status stack's per-slot decisions.
use vstd::prelude::*;
use crate::inventory::ItemTypeData;
use crate::text::{decimal, decimal_string};

verus! {

// --- the bag page ----------------------------------------------------------------

/// Slots on one page of a pet bag — the 7x4 lattice.
pub const COS_INVENTORY_PAGE_SLOTS: u8 = 28;
pub const GRID_COLS: u8 = 7;
pub const GRID_ROWS: u8 = 4;
/// The shared cell size, and the reason the lattice divides evenly.
pub const CELL: u32 = 36;
/// The lattice `(x, y, w, h)` inside the page.
pub const LATTICE_RECT: (u32, u32, u32, u32) = (41, 59, 252, 144);
/// The sunken panel the lattice sits in.
pub const INNER_BOX_RECT: (u32, u32, u32, u32) = (21, 27, 290, 235);

/// `ceil(capacity / 28)`, and at least one page so an empty bag still draws
/// its frame.
pub open spec fn spec_bag_page_count(capacity: nat) -> nat {
    let pages = (capacity + 27) / 28;
    if pages == 0 {
        1
    } else {
        pages
    }
}

/// Which page of the bag is shown.
#[derive(Clone, Copy, Debug, PartialEq, Eq, Structural)]
pub struct CosBagPage(pub u8);

impl CosBagPage {
    /// How many pages a bag of `capacity` slots needs.
    pub fn page_count(capacity: u8) -> (pages: u8)
        ensures
            pages == spec_bag_page_count(capacity as nat),
            pages >= 1,
    {
        let full = capacity / COS_INVENTORY_PAGE_SLOTS;
        let pages = if capacity % COS_INVENTORY_PAGE_SLOTS != 0 {
            full + 1
        } else {
            full
        };
        if pages == 0 {
            1
        } else {
            pages
        }
    }

    /// The absolute bag slot a cell on this page stands for.
    pub fn slot_of(&self, index: u8) -> (slot: u8)
        requires
            self.0 * 28 + index <= 255,
        ensures
            slot == self.0 * 28 + index,
    {
        self.0 * COS_INVENTORY_PAGE_SLOTS + index
    }
}

/// Which quarter of the lattice art a cell draws: the left-up tile carries
/// the separators between cells; the right and down variants close the grid
/// on its last column and last row.
#[derive(Clone, Copy, Debug, PartialEq, Eq, Structural)]
pub enum LatticeQuarter {
    LeftUp,
    RightUp,
    LeftDown,
    RightDown,
}

/// Whether a quarter is a right variant.
pub open spec fn is_right(q: LatticeQuarter) -> bool {
    q == LatticeQuarter::RightUp || q == LatticeQuarter::RightDown
}

/// Whether a quarter is a down variant.
pub open spec fn is_down(q: LatticeQuarter) -> bool {
    q == LatticeQuarter::LeftDown || q == LatticeQuarter::RightDown
}

/// The quarter page cell `index` draws: a right variant exactly in the last
/// column, a down variant exactly in the last row.
pub fn lattice_quarter(index: u8) -> (q: LatticeQuarter)
    requires
        index < COS_INVENTORY_PAGE_SLOTS,
    ensures
        is_right(q) == (index % GRID_COLS == GRID_COLS - 1),
        is_down(q) == (index / GRID_COLS == GRID_ROWS - 1),
{
    let row = index / GRID_COLS;
    let col = index % GRID_COLS;
    match (row == GRID_ROWS - 1, col == GRID_COLS - 1) {
        (false, false) => LatticeQuarter::LeftUp,
        (false, true) => LatticeQuarter::RightUp,
        (true, false) => LatticeQuarter::LeftDown,
        (true, true) => LatticeQuarter::RightDown,
    }
}

/// The art-name suffix of a quarter.
pub fn quarter_art(q: LatticeQuarter) -> (name: &'static str)
    ensures
        name@ == match q {
            LatticeQuarter::LeftUp => "left_up"@,
            LatticeQuarter::RightUp => "right_up"@,
            LatticeQuarter::LeftDown => "left_down"@,
            LatticeQuarter::RightDown => "right_down"@,
        },
{
    match q {
        LatticeQuarter::LeftUp => "left_up",
        LatticeQuarter::RightUp => "right_up",
        LatticeQuarter::LeftDown => "left_down",
        LatticeQuarter::RightDown => "right_down",
    }
}

/// A cell past the pet's capacity exists on the page but not in the bag, so
/// it is dimmed and refuses drops.
pub fn beyond_capacity(slot: u8, capacity: u8) -> (beyond: bool)
    ensures
        beyond == (slot >= capacity),
{
    slot >= capacity
}

/// The stack count drawn on a cell: only stackables carry one, and a count of
/// one is not drawn.
pub open spec fn spec_stack_label(data: Option<ItemTypeData>) -> Seq<char> {
    match data {
        Some(ItemTypeData::Expendable { stack_count }) => if stack_count > 1 {
            decimal(stack_count as nat)
        } else {
            Seq::empty()
        },
        _ => Seq::empty(),
    }
}

pub fn stack_label(data: Option<ItemTypeData>) -> (label: String)
    ensures
        label@ == spec_stack_label(data),
{
    match data {
        Some(ItemTypeData::Expendable { stack_count }) => {
            if stack_count > 1 {
                return decimal_string(stack_count as u64);
            }
        },
        _ => {},
    }
    String::new()
}

/// Where a pet-bag transfer starts and ends.
#[derive(Clone, Copy, Debug, PartialEq, Eq, Structural)]
pub enum BagSide {
    Pet,
    Inventory,
}

/// The three pet-bag operations.
#[derive(Clone, Copy, Debug, PartialEq, Eq, Structural)]
pub enum PetTransferRequest {
    PetToPet { cos_unique_id: u32, source: u8, target: u8, amount: u16 },
    PetToInventory { cos_unique_id: u32, pet_slot: u8, inventory_slot: u8 },
    InventoryToPet { cos_unique_id: u32, inventory_slot: u8, pet_slot: u8 },
}

/// Request a pet-bag transfer. Whole slots only: the two operations that
/// cross the boundary carry no quantity. Inventory to inventory is not a pet
/// operation, and a move onto itself is no move.
pub fn pet_bag_transfer(
    cos_unique_id: u32,
    from: (BagSide, u8),
    to: (BagSide, u8),
    amount: u16,
) -> (request: Option<PetTransferRequest>)
    ensures
        request == (match (from.0, to.0) {
            (BagSide::Pet, BagSide::Pet) => if from.1 != to.1 {
                Some(PetTransferRequest::PetToPet { cos_unique_id, source: from.1, target: to.1, amount })
            } else {
                None
            },
            (BagSide::Pet, BagSide::Inventory) => Some(
                PetTransferRequest::PetToInventory { cos_unique_id, pet_slot: from.1, inventory_slot: to.1 },
            ),
            (BagSide::Inventory, BagSide::Pet) => Some(
                PetTransferRequest::InventoryToPet { cos_unique_id, inventory_slot: from.1, pet_slot: to.1 },
            ),
            (BagSide::Inventory, BagSide::Inventory) => None,
        }),
{
    match (from.0, to.0) {
        (BagSide::Pet, BagSide::Pet) => {
            if from.1 != to.1 {
                Some(PetTransferRequest::PetToPet { cos_unique_id, source: from.1, target: to.1, amount })
            } else {
                None
            }
        },
        (BagSide::Pet, BagSide::Inventory) => Some(
            PetTransferRequest::PetToInventory { cos_unique_id, pet_slot: from.1, inventory_slot: to.1 },
        ),
        (BagSide::Inventory, BagSide::Pet) => Some(
            PetTransferRequest::InventoryToPet { cos_unique_id, inventory_slot: from.1, pet_slot: to.1 },
        ),
        (BagSide::Inventory, BagSide::Inventory) => None,
    }
}

// --- the info page ---------------------------------------------------------------

/// The kinds of summon.
#[derive(Clone, Copy, Debug, PartialEq, Eq, Structural)]
pub enum CosKind {
    Vehicle,
    Transport,
    GrowthPet,
    GrabPet,
}

impl CosKind {
    /// Pets starve; vehicles and transports do not.
    pub fn is_pet(self) -> (pet: bool)
        ensures
            pet == (self == CosKind::GrowthPet || self == CosKind::GrabPet),
    {
        match self {
            CosKind::GrowthPet | CosKind::GrabPet => true,
            _ => false,
        }
    }
}

/// The pet's level: the wire's own value, or the growth stage's character
/// data level for the kinds that carry no growth block.
pub fn pet_level(wire_level: Option<u8>, stage_level: Option<u32>) -> (level: Option<u32>)
    ensures
        level == (match wire_level {
            Some(l) => Some(l as u32),
            None => stage_level,
        }),
{
    match wire_level {
        Some(l) => Some(l as u32),
        None => stage_level,
    }
}

/// The level table's EXP column: the EXP a level asks for to level up.
pub struct LevelExpTable {
    pub exp: Vec<(u8, u64)>,
}

/// The EXP the first row for `level` asks for.
pub open spec fn table_exp(rows: Seq<(u8, u64)>, level: u8) -> Option<u64>
    decreases rows.len(),
{
    if rows.len() == 0 {
        None
    } else if rows[0].0 == level {
        Some(rows[0].1)
    } else {
        table_exp(rows.drop_first(), level)
    }
}

impl LevelExpTable {
    pub fn max_exp(&self, level: u8) -> (exp: Option<u64>)
        ensures
            exp == table_exp(self.exp@, level),
    {
        let mut i: usize = 0;
        proof {
            assert(self.exp@.skip(0) =~= self.exp@);
        }
        while i < self.exp.len()
            invariant
                i <= self.exp@.len(),
                table_exp(self.exp@.skip(i as int), level) == table_exp(self.exp@, level),
            decreases self.exp@.len() - i,
        {
            proof {
                assert(self.exp@.skip(i as int)[0] == self.exp@[i as int]);
                assert(self.exp@.skip(i as int).drop_first() =~= self.exp@.skip(i + 1));
            }
            if self.exp[i].0 == level {
                return Some(self.exp[i].1);
            }
            i = i + 1;
        }
        None
    }
}

/// The EXP the gauge is a fraction of: the level's threshold. Blank past the
/// end of the table, or for a level no table row can name, rather than a bar
/// stuck full.
pub fn exp_threshold(level: Option<u32>, table: &LevelExpTable) -> (required: Option<u64>)
    ensures
        required == (match level {
            Some(l) => if l <= 255 {
                match table_exp(table.exp@, l as u8) {
                    Some(r) => if r == 0 {
                        None
                    } else {
                        Some(r)
                    },
                    None => None,
                }
            } else {
                None
            },
            None => None,
        }),
{
    let l = match level {
        None => return None,
        Some(l) => l,
    };
    if l > 255 {
        return None;
    }
    match table.max_exp(l as u8) {
        None => None,
        Some(r) => {
            if r == 0 {
                None
            } else {
                Some(r)
            }
        },
    }
}

// --- the status stack ------------------------------------------------------------

/// HGP is reported per 10,000.
pub const HGP_FULL: u16 = 10000;
/// The slot frame's size, and a pet slot's taller layout box: the hunger
/// gauge is authored flush under the frame.
pub const SLOT_W: u32 = 44;
pub const SLOT_H: u32 = 56;
pub const PET_SLOT_H: u32 = 60;

/// The height a summon's slot occupies.
pub fn slot_height(kind: CosKind) -> (h: u32)
    ensures
        h == (if kind == CosKind::GrowthPet || kind == CosKind::GrabPet {
            PET_SLOT_H
        } else {
            SLOT_H
        }),
{
    if kind.is_pet() {
        PET_SLOT_H
    } else {
        SLOT_H
    }
}

/// Only pets get the hunger gauge.
pub fn has_hunger_gauge(kind: CosKind) -> (has: bool)
    ensures
        has == (kind == CosKind::GrowthPet || kind == CosKind::GrabPet),
{
    kind.is_pet()
}

/// An unknown hunger hides the gauge rather than emptying it.
pub fn hunger_gauge_visible(hgp: Option<u16>) -> (visible: bool)
    ensures
        visible == (hgp is Some),
{
    hgp.is_some()
}

/// The stack is rebuilt only when the list of summons changed.
pub fn slots_need_rebuild(last_uids: &Vec<u32>, uids: &Vec<u32>) -> (rebuild: bool)
    ensures
        rebuild == (last_uids@ != uids@),
{
    if last_uids.len() != uids.len() {
        return true;
    }
    let mut i: usize = 0;
    while i < uids.len()
        invariant
            last_uids@.len() == uids@.len(),
            i <= uids@.len(),
            forall|j: int| 0 <= j < i ==> last_uids@[j] == uids@[j],
        decreases uids@.len() - i,
    {
        if last_uids[i] != uids[i] {
            return true;
        }
        i = i + 1;
    }
    proof {
        assert(last_uids@ =~= uids@);
    }
    false
}

/// A slot's selection outline shows while the summon's entity is the
/// selected one.
pub fn outline_selected(selected: Option<u64>, summon_entity: Option<u64>) -> (shown: bool)
    ensures
        shown == (selected is Some && summon_entity == selected),
{
    match selected {
        None => false,
        Some(e) => match summon_entity {
            Some(s) => s == e,
            None => false,
        },
    }
}

/// The bag's pages cover its capacity and nothing past one spare page: the
/// last page starts inside the bag (or is the one empty page of an empty
/// bag), and every slot below the capacity is on some page.
pub proof fn law_pages_follow_capacity(capacity: nat)
    ensures
        spec_bag_page_count(capacity) >= 1,
        capacity > 0 ==> (spec_bag_page_count(capacity) - 1) * 28 < capacity,
        spec_bag_page_count(capacity) * 28 >= capacity,
{
    let p = (capacity + 27) / 28;
    assert(p * 28 <= capacity + 27) by (nonlinear_arith)
        requires
            p == (capacity + 27) / 28,
    ;
    assert(p * 28 + 28 > capacity + 27) by (nonlinear_arith)
        requires
            p == (capacity + 27) / 28,
    ;
    if capacity > 0 {
        assert(p >= 1);
        assert((p - 1) * 28 == p * 28 - 28) by (nonlinear_arith);
    }
}

} // verus!
