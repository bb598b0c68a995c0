//! The buff/debuff board right of the player's mini info: two rows of nine
//! 20-pixel icon slots on a 21-pixel pitch, each over a 4-pixel time gauge.
//! The bless row holds the active buffs; the curse row holds the stun and
//! freeze flags first, then the server's ailments, cut at nine.
use vstd::prelude::*;

verus! {

/// The board's anchor in window pixels.
pub const BOARD_X: u32 = 220;
pub const BOARD_Y: u32 = 10;

/// An icon slot's edge.
pub const SLOT: u32 = 20;

/// The distance between two slots of a row.
pub const PITCH: u32 = 21;

/// The time gauge's height.
pub const GAUGE_H: u32 = 4;

/// The curse row's top.
pub const CURSE_Y: u32 = 27;

/// Slots per row.
pub const SLOTS: usize = 9;

/// The stun and freeze icons.
pub const STUN_ICON: &'static str = "media://icon/stateodd/s_stun_icon.ddj";
pub const FREEZE_ICON: &'static str = "media://icon/stateodd/s_freeze_icon.ddj";

/// The two rows.
#[derive(Clone, Copy, PartialEq, Eq, Structural, Debug)]
pub enum BoardRow {
    Bless,
    Curse,
}

/// What a slot's gauge follows.
#[derive(PartialEq, Eq, Debug)]
pub enum GaugeSource {
    /// A buff, by its skill codename.
    Buff(String),
    Stunned,
    Frozen,
    /// A server-owned ailment, by its status code; it has no client timer.
    Ailment(u32),
}

/// A server ailment as the board reads it: its status code and icon.
pub struct AilmentView {
    pub code: u32,
    pub icon: String,
}

/// One drawn slot.
pub struct BoardSlot {
    pub row: BoardRow,
    pub column: usize,
    pub icon: Option<String>,
    pub source: GaugeSource,
}

/// The view of an optional string.
pub open spec fn opt_view(s: Option<String>) -> Option<Seq<char>> {
    match s {
        Some(v) => Some(v@),
        None => None,
    }
}

/// What the board was last built from; it rebuilds only when this changes.
pub struct BoardSignature {
    /// `(codename, icon)` of the first nine buffs.
    pub buffs: Vec<(String, Option<String>)>,
    pub stunned: bool,
    pub frozen: bool,
    /// The ailment bits.
    pub ailments: u32,
}

/// The views of `(codename, icon)` pairs.
pub open spec fn buff_views(buffs: Seq<(String, Option<String>)>) -> Seq<(Seq<char>, Option<Seq<char>>)> {
    buffs.map_values(|b: (String, Option<String>)| (b.0@, opt_view(b.1)))
}

impl View for BoardSignature {
    type V = (Seq<(Seq<char>, Option<Seq<char>>)>, bool, bool, u32);

    open spec fn view(&self) -> Self::V {
        (buff_views(self.buffs@), self.stunned, self.frozen, self.ailments)
    }
}

fn clone_opt(s: &Option<String>) -> (r: Option<String>)
    ensures
        opt_view(r) == opt_view(*s),
{
    match s {
        Some(v) => Some(v.clone()),
        None => None,
    }
}

/// The buffs a signature keeps: the first nine, as plain values.
pub open spec fn signature_buffs(buffs: Seq<(String, Option<String>)>) -> Seq<(Seq<char>, Option<Seq<char>>)> {
    buff_views(buffs).take(if buffs.len() < SLOTS { buffs.len() as int } else { SLOTS as int })
}

/// The signature of the player's state: the first nine buffs, the two flags
/// and the ailment bits.
pub fn board_signature(buffs: &[(String, Option<String>)], stunned: bool, frozen: bool, ailments: u32) -> (sig: BoardSignature)
    ensures
        sig@ == (
            signature_buffs(buffs@),
            stunned,
            frozen,
            ailments,
        ),
{
    let n: usize = if buffs.len() < SLOTS {
        buffs.len()
    } else {
        SLOTS
    };
    let mut kept: Vec<(String, Option<String>)> = Vec::new();
    let mut i: usize = 0;
    while i < n
        invariant
            n <= buffs@.len(),
            i <= n,
            buff_views(kept@) == buff_views(buffs@).take(i as int),
        decreases n - i,
    {
        let entry = (buffs[i].0.clone(), clone_opt(&buffs[i].1));
        let ghost before = kept@;
        kept.push(entry);
        proof {
            assert(kept@ =~= before.push(entry));
            assert(buff_views(kept@) =~= buff_views(before).push((entry.0@, opt_view(entry.1))));
            assert(buff_views(buffs@)[i as int] == (buffs@[i as int].0@, opt_view(buffs@[i as int].1)));
        }
        i = i + 1;
        proof {
            assert(buff_views(kept@) =~= buff_views(buffs@).take(i as int));
        }
    }
    BoardSignature { buffs: kept, stunned, frozen, ailments }
}

fn opt_string_eq(a: &Option<String>, b: &Option<String>) -> (r: bool)
    ensures
        r == (opt_view(*a) == opt_view(*b)),
{
    match (a, b) {
        (Some(x), Some(y)) => *x == *y,
        (None, None) => true,
        _ => false,
    }
}

/// Whether two signatures describe the same board.
pub fn same_signature(a: &BoardSignature, b: &BoardSignature) -> (r: bool)
    ensures
        r == (a@ == b@),
{
    if a.stunned != b.stunned || a.frozen != b.frozen || a.ailments != b.ailments {
        return false;
    }
    if a.buffs.len() != b.buffs.len() {
        proof {
            assert(buff_views(a.buffs@).len() != buff_views(b.buffs@).len());
        }
        return false;
    }
    let mut i: usize = 0;
    while i < a.buffs.len()
        invariant
            a.buffs@.len() == b.buffs@.len(),
            i <= a.buffs@.len(),
            forall|j: int| 0 <= j < i ==> buff_views(a.buffs@)[j] == buff_views(b.buffs@)[j],
        decreases a.buffs@.len() - i,
    {
        if !(a.buffs[i].0 == b.buffs[i].0) || !opt_string_eq(&a.buffs[i].1, &b.buffs[i].1) {
            proof {
                assert(buff_views(a.buffs@)[i as int] != buff_views(b.buffs@)[i as int]);
            }
            return false;
        }
        i = i + 1;
    }
    proof {
        assert(buff_views(a.buffs@) =~= buff_views(b.buffs@));
    }
    true
}

/// Whether the board must be (re)built this frame: there is none yet, or
/// the state it shows changed.
pub fn needs_rebuild(board_exists: bool, shown: &BoardSignature, current: &BoardSignature) -> (r: bool)
    ensures
        r == !(board_exists && shown@ == current@),
{
    !(board_exists && same_signature(shown, current))
}

/// How many flag slots the curse row opens with.
pub open spec fn flag_count(stunned: bool, frozen: bool) -> nat {
    (if stunned { 1nat } else { 0nat }) + (if frozen { 1nat } else { 0nat })
}

/// How many ailments fit after the flags.
pub open spec fn ailment_count(stunned: bool, frozen: bool, ailments: nat) -> nat {
    let room = (SLOTS - flag_count(stunned, frozen)) as nat;
    if ailments < room { ailments } else { room }
}

/// Whether `slot` is the buff `(codename, icon)` at bless column `column`.
pub open spec fn is_buff_slot(slot: BoardSlot, column: int, buff: (Seq<char>, Option<Seq<char>>)) -> bool {
    &&& slot.row == BoardRow::Bless
    &&& slot.column == column
    &&& opt_view(slot.icon) == buff.1
    &&& slot.source matches GaugeSource::Buff(codename) && codename@ == buff.0
}

/// The slots the board draws, in spawn order: every buff of the signature on
/// the bless row, column by column; then on the curse row the stun flag, the
/// freeze flag, and the ailments in order, as far as nine slots go.
pub fn board_slots(
    buffs: &[(String, Option<String>)],
    stunned: bool,
    frozen: bool,
    ailments: &[AilmentView],
) -> (slots: Vec<BoardSlot>)
    ensures
        ({
            let nb = buffs@.len();
            let nf = flag_count(stunned, frozen);
            let na = ailment_count(stunned, frozen, ailments@.len());
            &&& slots@.len() == nb + nf + na
            &&& forall|i: int| 0 <= i < nb ==> is_buff_slot(#[trigger] slots@[i], i, buff_views(buffs@)[i])
            &&& forall|j: int| 0 <= j < nf + na ==> (#[trigger] slots@[nb + j]).row == BoardRow::Curse
                && slots@[nb + j].column == j
            &&& stunned ==> slots@[nb as int].source == GaugeSource::Stunned
                && opt_view(slots@[nb as int].icon) == Some(STUN_ICON@)
            &&& frozen ==> slots@[nb + nf - 1].source == GaugeSource::Frozen
                && opt_view(slots@[nb + nf - 1].icon) == Some(FREEZE_ICON@)
            &&& forall|k: int| 0 <= k < na ==> (#[trigger] slots@[nb + nf + k]).source == GaugeSource::Ailment(ailments@[k].code)
                && opt_view(slots@[nb + nf + k].icon) == Some(ailments@[k].icon@)
        }),
{
    let mut slots: Vec<BoardSlot> = Vec::new();
    let mut i: usize = 0;
    while i < buffs.len()
        invariant
            i <= buffs@.len(),
            slots@.len() == i,
            forall|j: int| 0 <= j < i ==> is_buff_slot(#[trigger] slots@[j], j, buff_views(buffs@)[j]),
        decreases buffs@.len() - i,
    {
        slots.push(BoardSlot {
            row: BoardRow::Bless,
            column: i,
            icon: clone_opt(&buffs[i].1),
            source: GaugeSource::Buff(buffs[i].0.clone()),
        });
        i = i + 1;
    }
    let nb: usize = buffs.len();
    let mut curse: usize = 0;
    if stunned {
        slots.push(BoardSlot {
            row: BoardRow::Curse,
            column: curse,
            icon: Some(STUN_ICON.to_string()),
            source: GaugeSource::Stunned,
        });
        curse = curse + 1;
    }
    if frozen {
        slots.push(BoardSlot {
            row: BoardRow::Curse,
            column: curse,
            icon: Some(FREEZE_ICON.to_string()),
            source: GaugeSource::Frozen,
        });
        curse = curse + 1;
    }
    let nf: usize = curse;
    assert(nf == flag_count(stunned, frozen));
    let mut k: usize = 0;
    while k < ailments.len() && curse < SLOTS
        invariant
            nb == buffs@.len(),
            nf == flag_count(stunned, frozen),
            curse == nf + k,
            k <= ailments@.len(),
            curse <= SLOTS,
            slots@.len() == nb + curse,
            forall|i: int| 0 <= i < nb ==> is_buff_slot(#[trigger] slots@[i], i, buff_views(buffs@)[i]),
            forall|j: int| 0 <= j < curse ==> (#[trigger] slots@[nb + j]).row == BoardRow::Curse
                && slots@[nb + j].column == j,
            stunned ==> slots@[nb as int].source == GaugeSource::Stunned
                && opt_view(slots@[nb as int].icon) == Some(STUN_ICON@),
            frozen ==> slots@[nb + nf - 1].source == GaugeSource::Frozen
                && opt_view(slots@[nb + nf - 1].icon) == Some(FREEZE_ICON@),
            forall|m: int| 0 <= m < k ==> (#[trigger] slots@[nb + nf + m]).source == GaugeSource::Ailment(ailments@[m].code)
                && opt_view(slots@[nb + nf + m].icon) == Some(ailments@[m].icon@),
        decreases ailments@.len() - k,
    {
        slots.push(BoardSlot {
            row: BoardRow::Curse,
            column: curse,
            icon: Some(ailments[k].icon.clone()),
            source: GaugeSource::Ailment(ailments[k].code),
        });
        curse = curse + 1;
        k = k + 1;
    }
    assert(k == ailment_count(stunned, frozen, ailments@.len()));
    slots
}

/// A slot's top-left corner on the board: its column times the pitch, and
/// the row's top. Its gauge sits right under it, at `y + SLOT`.
pub fn slot_origin(row: BoardRow, column: u32) -> (xy: (u32, u32))
    requires
        column < SLOTS,
    ensures
        xy.0 == column * PITCH,
        xy.1 == if row == BoardRow::Bless { 0 } else { CURSE_Y },
{
    (column * PITCH, match row {
        BoardRow::Bless => 0,
        BoardRow::Curse => CURSE_Y,
    })
}

/// A press on a slot: a secondary-button press on a buff cancels that buff
/// (named by its codename); anything else does nothing.
pub fn buff_to_cancel(secondary_button: bool, source: &GaugeSource) -> (codename: Option<String>)
    ensures
        match codename {
            Some(c) => secondary_button && (source matches GaugeSource::Buff(b) && c@ == b@),
            None => !secondary_button || !(source is Buff),
        },
{
    if !secondary_button {
        return None;
    }
    match source {
        GaugeSource::Buff(codename) => Some(codename.clone()),
        _ => None,
    }
}

/// Neither row ever draws more than nine slots, whatever the player carries:
/// the bless row holds the signature's buffs, which are at most nine (the
/// board is built from a signature, and `board_slots` lays out one bless slot
/// per buff it is given), and the curse row's flags and ailments stop at nine.
pub proof fn law_rows_hold_at_most_nine(
    buffs: Seq<(String, Option<String>)>,
    stunned: bool,
    frozen: bool,
    ailments: nat,
)
    ensures
        signature_buffs(buffs).len() <= SLOTS,
        flag_count(stunned, frozen) + ailment_count(stunned, frozen, ailments) <= SLOTS,
{
}

/// A signature keeps exactly the first nine buffs, in order (all of them when
/// there are fewer): two players whose first nine buffs differ anywhere have
/// different signatures, so the board is rebuilt for them.
pub proof fn law_signature_keeps_the_first_nine(buffs: Seq<(String, Option<String>)>)
    ensures
        signature_buffs(buffs).len() == if buffs.len() < SLOTS { buffs.len() } else { SLOTS as nat },
        forall|i: int| 0 <= i < signature_buffs(buffs).len() ==> #[trigger] signature_buffs(buffs)[i]
            == (buffs[i].0@, opt_view(buffs[i].1)),
{
}

} // verus!
