//! The minimap's integer side: the zoom steps, which 1920-unit region the
//! tile grid is centred on, the coordinate and floor readouts, the area-name
//! region id, the terrain-tile paths, and the index of dungeon-floor tile sets
//! discovered from the media archive listing.
use crate::free_pvp::{trim_ddj, trim_ddj_chars};
use crate::text::{
    chars_eq, chars_of, decimal, ends_with_chars, find_first, find_last, forward_slash_chars,
    forward_slashed, has_prefix, has_suffix, lowercase_of, push_decimal, push_signed_decimal,
    push_str, signed_decimal, slice_chars, starts_with_chars, string_of, to_lowercase,
};
use vstd::prelude::*;

verus! {

// --- zoom and centre --------------------------------------------------------------

/// How many zoom steps the window offers.
pub const ZOOM_LEVEL_COUNT: usize = 5;

/// The step the window opens at: the terrain tiles' native resolution.
pub const DEFAULT_ZOOM_IDX: usize = 2;

/// Every region sector number the tile grid can show lies in `0..=255`.
pub const MAX_SECTOR: i32 = 255;

/// The minimap's view state.
pub struct MinimapState {
    /// Index into the zoom steps, `< ZOOM_LEVEL_COUNT`.
    pub zoom_idx: usize,
    /// Region sector (x, z) the tile grid is centred on; `None` until the
    /// first player position is seen.
    pub center_region: Option<(i32, i32)>,
}

impl MinimapState {
    /// The zoom index names one of the steps.
    pub open spec fn wf(&self) -> bool {
        self.zoom_idx < ZOOM_LEVEL_COUNT
    }
}

impl Default for MinimapState {
    fn default() -> (s: Self)
        ensures
            s.zoom_idx == DEFAULT_ZOOM_IDX,
            s.center_region is None,
    {
        MinimapState { zoom_idx: DEFAULT_ZOOM_IDX, center_region: None }
    }
}

/// The zoom index after the zoom-in button.
pub open spec fn zoomed_in(idx: nat) -> nat {
    if idx + 1 < ZOOM_LEVEL_COUNT {
        idx + 1
    } else {
        (ZOOM_LEVEL_COUNT - 1) as nat
    }
}

/// The zoom index after the zoom-out button.
pub open spec fn zoomed_out(idx: nat) -> nat {
    if idx == 0 {
        0
    } else {
        (idx - 1) as nat
    }
}

/// The zoom-in button: one step closer, stopping at the last step.
pub fn zoom_in(state: &mut MinimapState)
    requires
        old(state).wf(),
    ensures
        final(state).wf(),
        final(state).zoom_idx == zoomed_in(old(state).zoom_idx as nat),
        final(state).center_region == old(state).center_region,
{
    state.zoom_idx = if state.zoom_idx + 1 < ZOOM_LEVEL_COUNT {
        state.zoom_idx + 1
    } else {
        ZOOM_LEVEL_COUNT - 1
    };
}

/// The zoom-out button: one step further, stopping at the first step.
pub fn zoom_out(state: &mut MinimapState)
    requires
        old(state).wf(),
    ensures
        final(state).wf(),
        final(state).zoom_idx == zoomed_out(old(state).zoom_idx as nat),
        final(state).center_region == old(state).center_region,
{
    state.zoom_idx = if state.zoom_idx == 0 {
        0
    } else {
        state.zoom_idx - 1
    };
}

/// Zooming in and then out again returns to the same step, unless the first
/// press was already at the closest step.
pub proof fn law_zoom_in_then_out(idx: nat)
    requires
        idx + 1 < ZOOM_LEVEL_COUNT,
    ensures
        zoomed_out(zoomed_in(idx)) == idx,
        zoomed_in(idx) < ZOOM_LEVEL_COUNT,
{
}

/// Centre the tile grid on region `(xsec, zsec)`; the result says whether the
/// tiles must re-point their images (the centre moved, or was unset).
pub fn recenter(state: &mut MinimapState, xsec: i32, zsec: i32) -> (repoint: bool)
    ensures
        repoint == (old(state).center_region != Some((xsec, zsec))),
        final(state).center_region == Some((xsec, zsec)),
        final(state).zoom_idx == old(state).zoom_idx,
{
    let repoint = match state.center_region {
        Some((x, z)) => !(x == xsec && z == zsec),
        None => true,
    };
    if repoint {
        state.center_region = Some((xsec, zsec));
    }
    repoint
}

// --- readouts ---------------------------------------------------------------------

/// `"X: 6400"`: the axis letter, a colon, a space and the signed value.
pub open spec fn coord_label(axis: char, value: int) -> Seq<char> {
    seq![axis, ':', ' '] + signed_decimal(value)
}

/// One coordinate readout, e.g. `"X: 6400"`. The second readout is labelled
/// `Y` though it shows world Z, after the element it stands for.
pub fn coord_text(axis: char, value: i32) -> (s: String)
    ensures
        s@ == coord_label(axis, value as int),
{
    let mut out: Vec<char> = Vec::new();
    out.push(axis);
    out.push(':');
    out.push(' ');
    push_signed_decimal(&mut out, value as i64);
    proof {
        assert(out@ =~= coord_label(axis, value as int));
    }
    string_of(&out)
}

/// Whether `v` is a sector number the 256x256 region grid has.
pub open spec fn in_sector_range(v: int) -> bool {
    0 <= v <= MAX_SECTOR
}

/// The region id whose zone name the area readout shows: inside a dungeon the
/// dungeon's own id, outside it `z * 256 + x` of the grid's centre sector.
pub open spec fn spec_area_region(dungeon_region: Option<u16>, center: Option<(i32, i32)>) -> Option<
    u16,
> {
    match dungeon_region {
        Some(r) => Some(r),
        None => match center {
            Some((x, z)) => if in_sector_range(x as int) && in_sector_range(z as int) {
                Some((z * 256 + x) as u16)
            } else {
                None
            },
            None => None,
        },
    }
}

/// The region id the area readout names, or `None` when it keeps its text
/// (no centre yet, or a centre off the region grid).
pub fn area_region(dungeon_region: Option<u16>, center: Option<(i32, i32)>) -> (r: Option<u16>)
    ensures
        r == spec_area_region(dungeon_region, center),
{
    match dungeon_region {
        Some(region) => Some(region),
        None => match center {
            Some((xsec, zsec)) => {
                if 0 <= xsec && xsec <= MAX_SECTOR && 0 <= zsec && zsec <= MAX_SECTOR {
                    let x: u16 = xsec as u16;
                    let z: u16 = zsec as u16;
                    let id: u16 = (z << 8u16) | x;
                    assert(id == z * 256 + x) by (bit_vector)
                        requires
                            x < 256,
                            z < 256,
                            id == (z << 8u16) | x,
                    ;
                    Some(id)
                } else {
                    None
                }
            },
            None => None,
        },
    }
}

// --- the floor badge ----------------------------------------------------------------

/// Whether `c` is one of `0..=9`.
pub open spec fn is_digit(c: char) -> bool {
    '0' <= c && c <= '9'
}

/// The value of the digit `c`.
pub open spec fn digit_value(c: char) -> nat {
    ((c as int) - ('0' as int)) as nat
}

/// The run of digits at the end of `s` (empty when `s` ends otherwise).
pub open spec fn trailing_digits(s: Seq<char>) -> Seq<char>
    decreases s.len(),
{
    if s.len() == 0 {
        s
    } else if is_digit(s.last()) {
        trailing_digits(s.drop_last()).push(s.last())
    } else {
        Seq::empty()
    }
}

/// The number a run of digits spells.
pub open spec fn digits_value(d: Seq<char>) -> nat
    decreases d.len(),
{
    if d.len() == 0 {
        0
    } else {
        digits_value(d.drop_last()) * 10 + digit_value(d.last())
    }
}

/// The badge text: `B<n>` for a basement floor, `<n>F` above ground; with no
/// floor row, the floor name's trailing number as `<n>F` when it has one that
/// fits a `u32`, else nothing.
pub open spec fn spec_floor_label(floor_number: Option<(bool, u32)>, floor: Seq<char>) -> Seq<
    char,
> {
    match floor_number {
        Some((true, n)) => seq!['B'] + decimal(n as nat),
        Some((false, n)) => decimal(n as nat).push('F'),
        None => {
            let d = trailing_digits(floor);
            if d.len() > 0 && digits_value(d) <= u32::MAX {
                decimal(digits_value(d)).push('F')
            } else {
                Seq::empty()
            }
        },
    }
}

proof fn lemma_trailing_digits_split(s: Seq<char>, start: int)
    requires
        0 <= start <= s.len(),
        forall|j: int| start <= j < s.len() ==> is_digit(#[trigger] s[j]),
    ensures
        trailing_digits(s) == trailing_digits(s.subrange(0, start)) + s.subrange(start, s.len() as int),
    decreases s.len() - start,
{
    if start < s.len() {
        lemma_trailing_digits_split(s.drop_last(), start);
        assert(s.drop_last().subrange(0, start) =~= s.subrange(0, start));
        assert(s.subrange(start, s.len() as int) =~= s.drop_last().subrange(
            start,
            s.len() - 1,
        ).push(s.last()));
    } else {
        assert(s.subrange(0, start) =~= s);
    }
}

/// The floor-number text on the dungeon badge, e.g. `"B3"` or `"1F"`.
pub fn floor_label(floor_number: Option<(bool, u32)>, floor: &str) -> (s: String)
    ensures
        s@ == spec_floor_label(floor_number, floor@),
{
    let mut out: Vec<char> = Vec::new();
    match floor_number {
        Some((basement, n)) => {
            if basement {
                out.push('B');
                push_decimal(&mut out, n as u64);
                proof {
                    assert(out@ =~= seq!['B'] + decimal(n as nat));
                }
            } else {
                push_decimal(&mut out, n as u64);
                out.push('F');
            }
            return string_of(&out);
        },
        None => {},
    }
    let cs = chars_of(floor);
    let mut start: usize = cs.len();
    while start > 0 && '0' <= cs[start - 1] && cs[start - 1] <= '9'
        invariant
            start <= cs@.len(),
            forall|j: int| start <= j < cs@.len() ==> is_digit(#[trigger] cs@[j]),
        decreases start,
    {
        start = start - 1;
    }
    proof {
        lemma_trailing_digits_split(cs@, start as int);
        if start > 0 {
            assert(!is_digit(cs@.subrange(0, start as int).last()));
            assert(trailing_digits(cs@.subrange(0, start as int)) =~= Seq::<char>::empty());
        } else {
            assert(cs@.subrange(0, 0) =~= Seq::<char>::empty());
        }
        assert(trailing_digits(cs@) =~= cs@.subrange(start as int, cs@.len() as int));
    }
    let ghost digits = cs@.subrange(start as int, cs@.len() as int);
    if start == cs.len() {
        return string_of(&out);
    }
    let mut value: u64 = 0;
    let mut overflow = false;
    let mut i: usize = start;
    while i < cs.len()
        invariant
            start <= i <= cs@.len(),
            digits == cs@.subrange(start as int, cs@.len() as int),
            forall|j: int| start <= j < cs@.len() ==> is_digit(#[trigger] cs@[j]),
            !overflow ==> value == digits_value(cs@.subrange(start as int, i as int)) && value
                <= u32::MAX,
            overflow ==> digits_value(cs@.subrange(start as int, i as int)) > u32::MAX,
        decreases cs@.len() - i,
    {
        let c = cs[i];
        proof {
            assert(is_digit(cs@[i as int]));
            let next = cs@.subrange(start as int, i + 1);
            assert(next.drop_last() =~= cs@.subrange(start as int, i as int));
            assert(next.last() == c);
        }
        if !overflow {
            let d: u64 = (c as u32 - '0' as u32) as u64;
            value = value * 10 + d;
            if value > 0xffff_ffffu64 {
                overflow = true;
            }
        }
        i = i + 1;
    }
    if !overflow {
        push_decimal(&mut out, value);
        out.push('F');
        proof {
            assert(out@ =~= decimal(digits_value(digits)).push('F'));
        }
    }
    string_of(&out)
}

// --- the dungeon context -------------------------------------------------------------

/// What the minimap draws while the player is inside a dungeon.
pub struct MinimapDungeonContext {
    pub region_id: u16,
    /// Lowercased floor label of the player's current block: the stem of the
    /// floor's tile file names.
    pub floor: String,
    /// The `minimap_d/<group>` directory holding the floor's tiles; `None`
    /// when the archive ships none (the tiles then hide).
    pub group: Option<String>,
    /// `(basement, number)` for the badge, from the floor table.
    pub floor_number: Option<(bool, u32)>,
}

/// The view of an optional string.
pub open spec fn opt_view(s: Option<String>) -> Option<Seq<char>> {
    match s {
        Some(v) => Some(v@),
        None => None,
    }
}

/// A dungeon context as plain values.
pub struct ContextView {
    pub region_id: u16,
    pub floor: Seq<char>,
    pub group: Option<Seq<char>>,
    pub floor_number: Option<(bool, u32)>,
}

impl View for MinimapDungeonContext {
    type V = ContextView;

    open spec fn view(&self) -> ContextView {
        ContextView {
            region_id: self.region_id,
            floor: self.floor@,
            group: opt_view(self.group),
            floor_number: self.floor_number,
        }
    }
}

fn opt_string_eq(a: &Option<String>, b: &Option<String>) -> (r: bool)
    ensures
        r == (opt_view(*a) == opt_view(*b)),
{
    match (a, b) {
        (Some(x), Some(y)) => {
            let xs = chars_of(x.as_str());
            let ys = chars_of(y.as_str());
            chars_eq(&xs, &ys)
        },
        (None, None) => true,
        _ => false,
    }
}

/// Whether two contexts draw the same thing.
pub fn same_context(a: &MinimapDungeonContext, b: &MinimapDungeonContext) -> (r: bool)
    ensures
        r == (a@ == b@),
{
    if a.region_id != b.region_id {
        return false;
    }
    let same_number = match (a.floor_number, b.floor_number) {
        (Some((ba, na)), Some((bb, nb))) => ba == bb && na == nb,
        (None, None) => true,
        _ => false,
    };
    if !same_number {
        return false;
    }
    let fa = chars_of(a.floor.as_str());
    let fb = chars_of(b.floor.as_str());
    if !chars_eq(&fa, &fb) {
        return false;
    }
    opt_string_eq(&a.group, &b.group)
}

// --- terrain tiles ----------------------------------------------------------------------

/// Whether the tile at sector `(tx, tz)` is drawn: on the region grid, and
/// not on a dungeon floor that has no tile set.
pub open spec fn spec_tile_in_range(tx: int, tz: int, dungeon: Option<ContextView>) -> bool {
    &&& in_sector_range(tx)
    &&& in_sector_range(tz)
    &&& !(dungeon matches Some(ctx) && ctx.group is None)
}

/// Whether the tile at sector `(tx, tz)` is drawn.
pub fn tile_in_range(tx: i32, tz: i32, dungeon: Option<&MinimapDungeonContext>) -> (r: bool)
    ensures
        r == spec_tile_in_range(
            tx as int,
            tz as int,
            match dungeon {
                Some(c) => Some(c@),
                None => None,
            },
        ),
{
    let no_tiles = match dungeon {
        Some(ctx) => ctx.group.is_none(),
        None => false,
    };
    0 <= tx && tx <= MAX_SECTOR && 0 <= tz && tz <= MAX_SECTOR && !no_tiles
}

/// `<tx>x<tz>.ddj`, the tile-file suffix both tile sets share.
pub open spec fn tile_suffix(tx: int, tz: int) -> Seq<char> {
    signed_decimal(tx) + seq!['x'] + signed_decimal(tz) + ".ddj"@
}

/// The image a tile slot loads: `media://minimap/<x>x<z>.ddj` overground,
/// `media://minimap_d/<group>/<floor>_<x>x<z>.ddj` on a dungeon floor (an
/// empty group when the floor has none).
pub open spec fn spec_tile_path(tx: int, tz: int, dungeon: Option<ContextView>) -> Seq<char> {
    match dungeon {
        Some(ctx) => "media://minimap_d/"@ + match ctx.group {
            Some(g) => g,
            None => Seq::empty(),
        } + seq!['/'] + ctx.floor + seq!['_'] + tile_suffix(tx, tz),
        None => "media://minimap/"@ + tile_suffix(tx, tz),
    }
}

fn push_tile_suffix(out: &mut Vec<char>, tx: i32, tz: i32)
    ensures
        final(out)@ == old(out)@ + tile_suffix(tx as int, tz as int),
{
    push_signed_decimal(out, tx as i64);
    out.push('x');
    push_signed_decimal(out, tz as i64);
    push_str(out, ".ddj");
    proof {
        assert(final(out)@ =~= old(out)@ + tile_suffix(tx as int, tz as int));
    }
}

/// The image path of the tile at sector `(tx, tz)`.
pub fn tile_path(tx: i32, tz: i32, dungeon: Option<&MinimapDungeonContext>) -> (s: String)
    ensures
        s@ == spec_tile_path(
            tx as int,
            tz as int,
            match dungeon {
                Some(c) => Some(c@),
                None => None,
            },
        ),
{
    let mut out: Vec<char> = Vec::new();
    match dungeon {
        Some(ctx) => {
            push_str(&mut out, "media://minimap_d/");
            match &ctx.group {
                Some(g) => push_str(&mut out, g.as_str()),
                None => {},
            }
            out.push('/');
            push_str(&mut out, ctx.floor.as_str());
            out.push('_');
            push_tile_suffix(&mut out, tx, tz);
            proof {
                let g = match opt_view(ctx.group) {
                    Some(g) => g,
                    None => Seq::<char>::empty(),
                };
                assert(out@ =~= "media://minimap_d/"@ + g + seq!['/'] + ctx.floor@ + seq!['_']
                    + tile_suffix(tx as int, tz as int));
            }
        },
        None => {
            push_str(&mut out, "media://minimap/");
            push_tile_suffix(&mut out, tx, tz);
        },
    }
    string_of(&out)
}

// --- the dungeon tile index -------------------------------------------------------------

/// What one lowercased archive path contributes to the index:
/// `minimap_d/<group>/<floor>_<x>x<z>.ddj` gives `(floor, group)`, the floor
/// being the file stem before its last `_`. Any other path gives nothing.
pub open spec fn spec_tile_entry(lower: Seq<char>) -> Option<(Seq<char>, Seq<char>)> {
    if has_prefix(lower, "minimap_d/"@) {
        let rest = lower.skip("minimap_d/"@.len() as int);
        match rest.index_of_first('/') {
            Some(p) => if has_suffix(rest, ".ddj"@) {
                let group = rest.take(p);
                let stem = trim_ddj(rest.skip(p + 1));
                match stem.index_of_last('_') {
                    Some(q) => Some((stem.take(q), group)),
                    None => None,
                }
            } else {
                None
            },
            None => None,
        }
    } else {
        None
    }
}

/// The `(floor, group)` pair a lowercased, forward-slashed archive path
/// names, if it is a dungeon floor tile.
pub fn dungeon_tile_entry(lower: &str) -> (r: Option<(String, String)>)
    ensures
        match r {
            Some((floor, group)) => spec_tile_entry(lower@) == Some((floor@, group@)),
            None => spec_tile_entry(lower@) is None,
        },
{
    let cs = chars_of(lower);
    let prefix = chars_of("minimap_d/");
    if !starts_with_chars(&cs, &prefix) {
        return None;
    }
    let rest = slice_chars(&cs, prefix.len(), cs.len());
    proof {
        assert(rest@ =~= lower@.skip("minimap_d/"@.len() as int));
    }
    let slash = match find_first(&rest, '/') {
        Some(p) => p,
        None => return None,
    };
    let ddj = chars_of(".ddj");
    if !ends_with_chars(&rest, &ddj) {
        return None;
    }
    proof {
        rest@.index_of_first_ensures('/');
    }
    let group = slice_chars(&rest, 0, slash);
    let file = slice_chars(&rest, slash + 1, rest.len());
    let stem = trim_ddj_chars(&file);
    let under = match find_last(&stem, '_') {
        Some(q) => q,
        None => {
            proof {
                assert(file@ =~= rest@.skip(slash + 1));
            }
            return None;
        },
    };
    proof {
        stem@.index_of_last_ensures('_');
        assert(file@ =~= rest@.skip(slash + 1));
        assert(group@ =~= rest@.take(slash as int));
    }
    let floor = slice_chars(&stem, 0, under);
    proof {
        assert(floor@ =~= stem@.take(under as int));
    }
    Some((string_of(&floor), string_of(&group)))
}

/// The first group recorded for `key`, scanning from the front.
pub open spec fn lookup_first(entries: Seq<(Seq<char>, Seq<char>)>, key: Seq<char>) -> Option<
    Seq<char>,
>
    decreases entries.len(),
{
    if entries.len() == 0 {
        None
    } else if entries[0].0 == key {
        Some(entries[0].1)
    } else {
        lookup_first(entries.drop_first(), key)
    }
}

/// The index after one more lowercased path: a floor tile adds its
/// `(floor, group)` unless that floor is already indexed — the first path
/// seen for a floor wins.
pub open spec fn index_step(entries: Seq<(Seq<char>, Seq<char>)>, lower: Seq<char>) -> Seq<
    (Seq<char>, Seq<char>),
> {
    match spec_tile_entry(lower) {
        Some((floor, group)) => if lookup_first(entries, floor) is Some {
            entries
        } else {
            entries.push((floor, group))
        },
        None => entries,
    }
}

/// The index built from an archive listing, in listing order; each path is
/// forward-slashed and lowercased first.
pub open spec fn tile_index(paths: Seq<Seq<char>>) -> Seq<(Seq<char>, Seq<char>)>
    decreases paths.len(),
{
    if paths.len() == 0 {
        Seq::empty()
    } else {
        index_step(tile_index(paths.drop_last()), lowercase_of(forward_slashed(paths.last())))
    }
}

/// Floor label to `minimap_d` group directory, discovered from the media
/// archive's listing.
pub struct DungeonGroups {
    /// `(floor, group)` pairs; a lookup takes the first pair for a floor.
    pub entries: Vec<(Vec<char>, Vec<char>)>,
}

impl View for DungeonGroups {
    type V = Seq<(Seq<char>, Seq<char>)>;

    open spec fn view(&self) -> Seq<(Seq<char>, Seq<char>)> {
        self.entries@.map_values(|e: (Vec<char>, Vec<char>)| (e.0@, e.1@))
    }
}

proof fn lemma_lookup_skip(entries: Seq<(Seq<char>, Seq<char>)>, key: Seq<char>, i: int)
    requires
        0 <= i <= entries.len(),
        forall|j: int| 0 <= j < i ==> entries[j].0 != key,
    ensures
        lookup_first(entries, key) == lookup_first(entries.skip(i), key),
    decreases i,
{
    if i > 0 {
        lemma_lookup_skip(entries, key, i - 1);
        assert(entries.skip(i - 1).drop_first() =~= entries.skip(i));
    } else {
        assert(entries.skip(0) =~= entries);
    }
}

proof fn lemma_lookup_push(entries: Seq<(Seq<char>, Seq<char>)>, key: Seq<char>, e: (
    Seq<char>,
    Seq<char>,
))
    ensures
        lookup_first(entries, key) is Some ==> lookup_first(entries.push(e), key) == lookup_first(
            entries,
            key,
        ),
        lookup_first(entries, key) is None && e.0 == key ==> lookup_first(entries.push(e), key)
            == Some(e.1),
    decreases entries.len(),
{
    if entries.len() > 0 {
        lemma_lookup_push(entries.drop_first(), key, e);
        assert(entries.push(e).drop_first() =~= entries.drop_first().push(e));
    } else {
        assert(entries.push(e).drop_first() =~= Seq::<(Seq<char>, Seq<char>)>::empty());
    }
}

impl DungeonGroups {
    /// An empty index.
    pub fn new() -> (g: Self)
        ensures
            g@ == Seq::<(Seq<char>, Seq<char>)>::empty(),
    {
        DungeonGroups { entries: Vec::new() }
    }

    fn find(&self, key: &Vec<char>) -> (r: Option<usize>)
        ensures
            match r {
                Some(i) => i < self.entries@.len() && lookup_first(self@, key@) == Some(
                    self.entries@[i as int].1@,
                ),
                None => lookup_first(self@, key@) is None,
            },
    {
        let mut i: usize = 0;
        while i < self.entries.len()
            invariant
                i <= self.entries@.len(),
                forall|j: int| 0 <= j < i ==> self@[j].0 != key@,
            decreases self.entries@.len() - i,
        {
            if chars_eq(&self.entries[i].0, key) {
                proof {
                    lemma_lookup_skip(self@, key@, i as int);
                    assert(self@.skip(i as int)[0] == self@[i as int]);
                }
                return Some(i);
            }
            i = i + 1;
        }
        proof {
            lemma_lookup_skip(self@, key@, i as int);
        }
        None
    }

    /// The group directory of `floor`, if the archive has one.
    pub fn group_of(&self, floor: &str) -> (g: Option<String>)
        ensures
            opt_view(g) == lookup_first(self@, floor@),
    {
        let key = chars_of(floor);
        match self.find(&key) {
            Some(i) => Some(string_of(&self.entries[i].1)),
            None => None,
        }
    }

    /// Index one lowercased, forward-slashed archive path.
    pub fn insert_tile_path(&mut self, lower: &str)
        ensures
            final(self)@ == index_step(old(self)@, lower@),
    {
        match dungeon_tile_entry(lower) {
            Some((floor, group)) => {
                let key = chars_of(floor.as_str());
                match self.find(&key) {
                    Some(_) => {},
                    None => {
                        let value = chars_of(group.as_str());
                        self.entries.push((key, value));
                        proof {
                            assert(final(self)@ =~= old(self)@.push((floor@, group@)));
                        }
                    },
                }
            },
            None => {},
        }
    }
}

/// The views of a list of strings.
pub open spec fn string_views(paths: Seq<String>) -> Seq<Seq<char>> {
    paths.map_values(|p: String| p@)
}

/// Index the media archive's listing: every `minimap_d/<group>/<floor>_<x>x<z>.ddj`
/// file, matched case-insensitively and with either slash, records its
/// floor's group; the first file seen for a floor wins.
pub fn build_dungeon_groups(paths: &[String]) -> (g: DungeonGroups)
    ensures
        g@ == tile_index(string_views(paths@)),
{
    let mut groups = DungeonGroups::new();
    let mut i: usize = 0;
    while i < paths.len()
        invariant
            i <= paths@.len(),
            groups@ == tile_index(string_views(paths@.subrange(0, i as int))),
        decreases paths@.len() - i,
    {
        let raw = chars_of(paths[i].as_str());
        let slashed = string_of(&forward_slash_chars(&raw));
        let lower = to_lowercase(slashed.as_str());
        groups.insert_tile_path(lower.as_str());
        i = i + 1;
        proof {
            let done = string_views(paths@.subrange(0, i as int));
            assert(done.drop_last() =~= string_views(paths@.subrange(0, i - 1)));
            assert(done.last() == paths@[i - 1]@);
        }
    }
    proof {
        assert(paths@.subrange(0, paths@.len() as int) =~= paths@);
    }
    groups
}

/// Once a floor is indexed, later paths never change its group: the index
/// keeps the first group the listing shows for each floor.
pub proof fn law_first_group_wins(paths: Seq<Seq<char>>, more: Seq<Seq<char>>, floor: Seq<char>)
    requires
        lookup_first(tile_index(paths), floor) is Some,
    ensures
        lookup_first(tile_index(paths + more), floor) == lookup_first(tile_index(paths), floor),
    decreases more.len(),
{
    if more.len() == 0 {
        assert(paths + more =~= paths);
    } else {
        law_first_group_wins(paths, more.drop_last(), floor);
        assert((paths + more).drop_last() =~= paths + more.drop_last());
        let before = tile_index(paths + more.drop_last());
        match spec_tile_entry(lowercase_of(forward_slashed((paths + more).last()))) {
            Some((f, g)) => {
                lemma_lookup_push(before, floor, (f, g));
            },
            None => {},
        }
    }
}

/// A floor tile's path makes its floor findable in the index.
pub proof fn law_indexed_floor_is_found(entries: Seq<(Seq<char>, Seq<char>)>, lower: Seq<char>)
    ensures
        spec_tile_entry(lower) matches Some((floor, group)) ==> lookup_first(
            index_step(entries, lower),
            floor,
        ) is Some,
{
    match spec_tile_entry(lower) {
        Some((f, g)) => lemma_lookup_push(entries, f, (f, g)),
        None => {},
    }
}

// --- keeping the dungeon context in step ------------------------------------------------

/// The lowercased floor label of the player's current floor: the label of the
/// block the player stands in, or, for a dungeon whose blocks carry none, the
/// dungeon's only floor row.
pub fn current_floor(block_floor_name: Option<&str>, region_floor_names: &[&str]) -> (floor:
    Option<String>)
    ensures
        opt_view(floor) == match block_floor_name {
            Some(name) => Some(lowercase_of(name@)),
            None => if region_floor_names@.len() == 1 {
                Some(lowercase_of(region_floor_names@[0]@))
            } else {
                None
            },
        },
{
    match block_floor_name {
        Some(name) => Some(to_lowercase(name)),
        None => {
            if region_floor_names.len() == 1 {
                Some(to_lowercase(region_floor_names[0]))
            } else {
                None
            }
        },
    }
}

/// What the minimap does with its dungeon context this frame.
pub enum DungeonContextAction {
    /// Nothing changes.
    Keep,
    /// Drop the context: the player left the dungeon, or its floor is unknown.
    Clear,
    /// Index the media archive's tile sets first; the context follows once
    /// the index exists.
    IndexArchive,
    /// Replace the context with this one.
    Replace(MinimapDungeonContext),
}

/// The context a dungeon floor calls for.
pub open spec fn wanted_context(
    region_id: u16,
    groups: Seq<(Seq<char>, Seq<char>)>,
    floor: Seq<char>,
    floor_number: Option<(bool, u32)>,
) -> ContextView {
    ContextView {
        region_id,
        floor,
        group: lookup_first(groups, floor),
        floor_number,
    }
}

/// Keep the dungeon context in step with the active dungeon and the player's
/// floor. Leaving the dungeon, or losing the floor, clears a context that is
/// there; without the tile index it is built first (once the archive is
/// loaded); otherwise the wanted context replaces a different one. Clearing
/// or replacing unsets the tile grid's centre so the tiles re-point.
pub fn sync_minimap_dungeon_context(
    active_region: Option<u16>,
    archive_loaded: bool,
    groups: Option<&DungeonGroups>,
    floor: Option<String>,
    floor_number: Option<(bool, u32)>,
    context: Option<&MinimapDungeonContext>,
    state: &mut MinimapState,
) -> (action: DungeonContextAction)
    ensures
        final(state).zoom_idx == old(state).zoom_idx,
        active_region is None ==> if context is Some {
            action is Clear && final(state).center_region is None
        } else {
            action is Keep && final(state).center_region == old(state).center_region
        },
        active_region is Some && groups is None ==> final(state).center_region == old(
            state,
        ).center_region && if archive_loaded {
            action is IndexArchive
        } else {
            action is Keep
        },
        active_region is Some && groups is Some && floor is None ==> if context is Some {
            action is Clear && final(state).center_region is None
        } else {
            action is Keep && final(state).center_region == old(state).center_region
        },
        active_region matches Some(region) ==> groups matches Some(g) ==> floor matches Some(f)
            ==> {
            let wanted = wanted_context(region, g@, f@, floor_number);
            if context matches Some(c) && c@ == wanted {
                action is Keep && final(state).center_region == old(state).center_region
            } else {
                action matches DungeonContextAction::Replace(new) && new@ == wanted
                    && final(state).center_region is None
            }
        },
{
    let region = match active_region {
        Some(r) => r,
        None => {
            if context.is_some() {
                state.center_region = None;
                return DungeonContextAction::Clear;
            }
            return DungeonContextAction::Keep;
        },
    };
    let groups = match groups {
        Some(g) => g,
        None => {
            if archive_loaded {
                return DungeonContextAction::IndexArchive;
            }
            return DungeonContextAction::Keep;
        },
    };
    let floor = match floor {
        Some(f) => f,
        None => {
            if context.is_some() {
                state.center_region = None;
                return DungeonContextAction::Clear;
            }
            return DungeonContextAction::Keep;
        },
    };
    let group = groups.group_of(floor.as_str());
    let new = MinimapDungeonContext { region_id: region, floor, group, floor_number };
    let unchanged = match context {
        Some(c) => same_context(c, &new),
        None => false,
    };
    if unchanged {
        DungeonContextAction::Keep
    } else {
        state.center_region = None;
        DungeonContextAction::Replace(new)
    }
}

/// The floor badge's text: the floor label while a dungeon floor is shown,
/// nothing otherwise (the badge is hidden then).
pub fn floor_badge_text(context: Option<&MinimapDungeonContext>) -> (s: String)
    ensures
        s@ == match context {
            Some(c) => spec_floor_label(c.floor_number, c.floor@),
            None => Seq::empty(),
        },
{
    match context {
        Some(c) => floor_label(c.floor_number, c.floor.as_str()),
        None => string_of(&Vec::new()),
    }
}

// --- entity dots ------------------------------------------------------------------------

/// How many entity dots the minimap draws at most.
pub const DOT_POOL_SIZE: usize = 64;

/// What a remote entity is.
#[derive(Clone, Copy, PartialEq, Eq, Structural, Debug)]
pub enum RemoteKind {
    Item,
    Monster,
    Npc,
    Player,
}

/// The sign art an entity dot uses.
#[derive(Clone, Copy, PartialEq, Eq, Structural, Debug)]
pub enum DotSign {
    Monster,
    Npc,
    OtherPlayer,
    Unique,
}

impl DotSign {
    /// The dot's side in window pixels: the sign texture's own size.
    pub fn size(self) -> (px: u32)
        ensures
            px == if self is Unique {
                12u32
            } else {
                8u32
            },
    {
        match self {
            DotSign::Unique => 12,
            _ => 8,
        }
    }
}

/// The dot an entity draws as: none for a dropped item, the unique sign for
/// a unique monster.
pub fn dot_sign(kind: RemoteKind, unique: bool) -> (sign: Option<DotSign>)
    ensures
        sign == match kind {
            RemoteKind::Item => None,
            RemoteKind::Monster => if unique {
                Some(DotSign::Unique)
            } else {
                Some(DotSign::Monster)
            },
            RemoteKind::Npc => Some(DotSign::Npc),
            RemoteKind::Player => Some(DotSign::OtherPlayer),
        },
{
    match kind {
        RemoteKind::Item => None,
        RemoteKind::Monster => if unique {
            Some(DotSign::Unique)
        } else {
            Some(DotSign::Monster)
        },
        RemoteKind::Npc => Some(DotSign::Npc),
        RemoteKind::Player => Some(DotSign::OtherPlayer),
    }
}

} // verus!
