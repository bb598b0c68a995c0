//! The in-game help book's navigation drawer.
//!
//! The whole book is data: a two-level tree of categories and leaves. The
//! drawer lists every enabled category in file order, each followed by its
//! own enabled leaves when it is expanded. Leaves are matched by their parent
//! column — a category's stated child count is never the source of the tree.
use vstd::prelude::*;
use std::collections::HashSet;
use crate::text::{push_str, string_of};

verus! {

broadcast use vstd::std_specs::hash::group_hash_axioms;

/// The drawer's authored width; it is docked inside the window.
pub const DRAWER_W: u32 = 213;
/// The page half of the content area.
pub const PAGE_W: u32 = 395;
pub const PAGE_H: u32 = 401;
pub const CONTENT_W: u32 = 608;
pub const CONTENT_H: u32 = 401;
/// The scroll viewport of the drawer list, drawer-local `(x, y, w, h)`.
pub const LIST_VIEWPORT: (u32, u32, u32, u32) = (10, 34, 192, 346);
pub const LIST_FILL: (u32, u32, u32, u32) = (22, 46, 168, 322);
/// Row prototypes: a category's drop-down button and title, a leaf's lamp
/// and title — the leaf is indented past its category.
pub const CATEGORY_ARROW: (u32, u32, u32, u32) = (4, 4, 24, 24);
pub const CATEGORY_TITLE: (u32, u32, u32, u32) = (28, 8, 131, 12);
pub const LEAF_LAMP: (u32, u32, u32, u32) = (33, 7, 8, 16);
pub const LEAF_TITLE: (u32, u32, u32, u32) = (43, 9, 107, 12);
/// A category row is `4 + 24 + 4`; a leaf row rounds its lamp up.
pub const CATEGORY_ROW_H: u32 = 32;
pub const LEAF_ROW_H: u32 = 24;

/// What a guide node is.
#[derive(Clone, Copy, Debug, PartialEq, Eq, Structural)]
pub enum GuideKind {
    /// A category, with the child count its row states (a checksum only).
    Category { declared_children: u32 },
    /// A page under the category `parent`.
    Leaf { parent: u32 },
}

/// One row of the guide table.
#[derive(Clone, Copy, Debug, PartialEq, Eq, Structural)]
pub struct GuideNode {
    pub id: u32,
    pub enabled: bool,
    pub kind: GuideKind,
}

/// One rendered drawer row.
#[derive(Clone, Copy, Debug, PartialEq, Eq, Structural)]
pub struct DrawerRow {
    pub id: u32,
    pub category: bool,
}

/// The enabled leaves of `parent`, in file order.
pub open spec fn leaf_rows(all: Seq<GuideNode>, parent: u32) -> Seq<DrawerRow>
    decreases all.len(),
{
    if all.len() == 0 {
        Seq::empty()
    } else {
        let n = all[0];
        let here = if n.enabled && n.kind == (GuideKind::Leaf { parent }) {
            seq![DrawerRow { id: n.id, category: false }]
        } else {
            Seq::empty()
        };
        here + leaf_rows(all.drop_first(), parent)
    }
}

/// The drawer rows contributed by `nodes` (a suffix of `all`).
pub open spec fn rows_of(nodes: Seq<GuideNode>, all: Seq<GuideNode>, expanded: Set<u32>) -> Seq<DrawerRow>
    decreases nodes.len(),
{
    if nodes.len() == 0 {
        Seq::empty()
    } else {
        let n = nodes[0];
        let here = if n.enabled && n.kind is Category {
            seq![DrawerRow { id: n.id, category: true }] + if expanded.contains(n.id) {
                leaf_rows(all, n.id)
            } else {
                Seq::empty()
            }
        } else {
            Seq::empty()
        };
        here + rows_of(nodes.drop_first(), all, expanded)
    }
}

/// The drawer's rows in file order: every enabled category, each followed by
/// its own enabled leaves when it is expanded.
pub fn drawer_rows(nodes: &[GuideNode], expanded: &HashSet<u32>) -> (rows: Vec<DrawerRow>)
    ensures
        rows@ == rows_of(nodes@, nodes@, expanded@),
{
    let ghost all = nodes@;
    let ghost target = rows_of(all, all, expanded@);
    let mut rows: Vec<DrawerRow> = Vec::new();
    let mut i: usize = 0;
    proof {
        assert(all.skip(0) =~= all);
        assert(rows@ + target =~= target);
    }
    while i < nodes.len()
        invariant
            all == nodes@,
            target == rows_of(all, all, expanded@),
            i <= all.len(),
            rows@ + rows_of(all.skip(i as int), all, expanded@) == target,
        decreases all.len() - i,
    {
        let node = nodes[i];
        proof {
            assert(all.skip(i as int)[0] == node);
            assert(all.skip(i as int).drop_first() =~= all.skip(i + 1));
        }
        let ghost before = rows@;
        let is_category = match node.kind {
            GuideKind::Category { .. } => true,
            GuideKind::Leaf { .. } => false,
        };
        if node.enabled && is_category {
            rows.push(DrawerRow { id: node.id, category: true });
            if expanded.contains(&node.id) {
                let ghost mid = rows@;
                let mut j: usize = 0;
                proof {
                    assert(all.skip(0) =~= all);
                    assert(rows@ + leaf_rows(all, node.id) =~= mid + leaf_rows(all.skip(0), node.id));
                }
                while j < nodes.len()
                    invariant
                        all == nodes@,
                        j <= all.len(),
                        rows@ + leaf_rows(all.skip(j as int), node.id) == mid + leaf_rows(all, node.id),
                    decreases all.len() - j,
                {
                    let leaf = nodes[j];
                    proof {
                        assert(all.skip(j as int)[0] == leaf);
                        assert(all.skip(j as int).drop_first() =~= all.skip(j + 1));
                    }
                    let ghost b = rows@;
                    let matches = match leaf.kind {
                        GuideKind::Leaf { parent } => parent == node.id,
                        GuideKind::Category { .. } => false,
                    };
                    if leaf.enabled && matches {
                        rows.push(DrawerRow { id: leaf.id, category: false });
                        proof {
                            assert(b + leaf_rows(all.skip(j as int), node.id) =~= rows@ + leaf_rows(
                                all.skip(j + 1),
                                node.id,
                            ));
                        }
                    } else {
                        proof {
                            assert(!(leaf.enabled && leaf.kind == (GuideKind::Leaf { parent: node.id })));
                            assert(leaf_rows(all.skip(j as int), node.id) =~= leaf_rows(
                                all.skip(j + 1),
                                node.id,
                            ));
                        }
                    }
                    j = j + 1;
                }
                proof {
                    assert(all.skip(j as int) =~= Seq::<GuideNode>::empty());
                    assert(rows@ =~= before + (seq![DrawerRow { id: node.id, category: true }]
                        + leaf_rows(all, node.id)));
                }
            } else {
                proof {
                    assert(rows@ =~= before + (seq![DrawerRow { id: node.id, category: true }]
                        + Seq::<DrawerRow>::empty()));
                }
            }
        }
        proof {
            assert(rows@ + rows_of(all.skip(i + 1), all, expanded@) =~= before + rows_of(
                all.skip(i as int),
                all,
                expanded@,
            ));
        }
        i = i + 1;
    }
    proof {
        assert(all.skip(i as int) =~= Seq::<GuideNode>::empty());
        assert(rows@ =~= target);
    }
    rows
}

/// A row's height by kind: the two prototypes are different sizes.
pub fn row_height(row: &DrawerRow) -> (h: u32)
    ensures
        h == (if row.category {
            CATEGORY_ROW_H
        } else {
            LEAF_ROW_H
        }),
{
    if row.category {
        CATEGORY_ROW_H
    } else {
        LEAF_ROW_H
    }
}

/// Which categories are unfolded and which page is shown.
pub struct GameGuideWindowState {
    pub open: bool,
    /// Category ids whose leaves are listed; more than one may be open.
    pub expanded: HashSet<u32>,
    /// The selected leaf id, `None` on the start page.
    pub page: Option<u32>,
}

impl GameGuideWindowState {
    pub fn new() -> (s: GameGuideWindowState)
        ensures
            !s.open,
            s.expanded@ == Set::<u32>::empty(),
            s.page is None,
    {
        GameGuideWindowState { open: false, expanded: HashSet::new(), page: None }
    }
}

/// A drawer row was activated: a category folds or unfolds, a leaf becomes
/// the shown page.
pub fn on_row_activate(state: &mut GameGuideWindowState, row: DrawerRow)
    ensures
        final(state).open == old(state).open,
        if row.category {
            &&& final(state).expanded@ == (if old(state).expanded@.contains(row.id) {
                old(state).expanded@.remove(row.id)
            } else {
                old(state).expanded@.insert(row.id)
            })
            &&& final(state).page == old(state).page
        } else {
            &&& final(state).expanded@ == old(state).expanded@
            &&& final(state).page == Some(row.id)
        },
{
    if row.category {
        if !state.expanded.remove(&row.id) {
            state.expanded.insert(row.id);
        }
    } else {
        state.page = Some(row.id);
    }
}

/// `id` names an enabled leaf of `parent` in `all`.
pub open spec fn has_enabled_leaf(all: Seq<GuideNode>, parent: u32, id: u32) -> bool {
    exists|m: int| 0 <= m < all.len() && #[trigger] all[m].id == id && all[m].enabled && all[m].kind
        == (GuideKind::Leaf { parent })
}

/// `id` names an enabled category in `nodes`.
pub open spec fn has_enabled_category(nodes: Seq<GuideNode>, id: u32) -> bool {
    exists|m: int| 0 <= m < nodes.len() && #[trigger] nodes[m].id == id && nodes[m].enabled
        && nodes[m].kind is Category
}

proof fn lemma_concat_contains<A>(a: Seq<A>, b: Seq<A>, x: A)
    requires
        (a + b).contains(x),
    ensures
        a.contains(x) || b.contains(x),
{
    let k = choose|k: int| 0 <= k < (a + b).len() && (a + b)[k] == x;
    if k < a.len() {
        assert(a[k] == x);
    } else {
        assert(b[k - a.len()] == x);
    }
}

proof fn lemma_leaf_rows_sound(all: Seq<GuideNode>, parent: u32)
    ensures
        forall|r: DrawerRow| #[trigger] leaf_rows(all, parent).contains(r) ==> !r.category
            && has_enabled_leaf(all, parent, r.id),
    decreases all.len(),
{
    if all.len() > 0 {
        lemma_leaf_rows_sound(all.drop_first(), parent);
        assert forall|r: DrawerRow| #[trigger] leaf_rows(all, parent).contains(r) implies !r.category
            && has_enabled_leaf(all, parent, r.id) by {
            let n = all[0];
            let here = if n.enabled && n.kind == (GuideKind::Leaf { parent }) {
                seq![DrawerRow { id: n.id, category: false }]
            } else {
                Seq::empty()
            };
            lemma_concat_contains(here, leaf_rows(all.drop_first(), parent), r);
            if here.contains(r) {
                assert(all[0].id == r.id);
            } else {
                let m = choose|m: int| 0 <= m < all.drop_first().len() && #[trigger] all.drop_first()[m].id
                    == r.id && all.drop_first()[m].enabled && all.drop_first()[m].kind == (GuideKind::Leaf { parent });
                assert(all[m + 1] == all.drop_first()[m]);
            }
        }
    }
}

proof fn lemma_rows_of_sound(nodes: Seq<GuideNode>, all: Seq<GuideNode>, expanded: Set<u32>)
    ensures
        forall|r: DrawerRow| #[trigger] rows_of(nodes, all, expanded).contains(r) ==> if r.category {
            has_enabled_category(nodes, r.id)
        } else {
            exists|p: u32| #[trigger] expanded.contains(p) && has_enabled_category(nodes, p)
                && has_enabled_leaf(all, p, r.id)
        },
    decreases nodes.len(),
{
    if nodes.len() > 0 {
        lemma_rows_of_sound(nodes.drop_first(), all, expanded);
        let n = nodes[0];
        lemma_leaf_rows_sound(all, n.id);
        assert forall|r: DrawerRow| #[trigger] rows_of(nodes, all, expanded).contains(r) implies if r.category {
            has_enabled_category(nodes, r.id)
        } else {
            exists|p: u32| #[trigger] expanded.contains(p) && has_enabled_category(nodes, p)
                && has_enabled_leaf(all, p, r.id)
        } by {
            let leaves = if expanded.contains(n.id) {
                leaf_rows(all, n.id)
            } else {
                Seq::empty()
            };
            let here = if n.enabled && n.kind is Category {
                seq![DrawerRow { id: n.id, category: true }] + leaves
            } else {
                Seq::empty()
            };
            let rest = rows_of(nodes.drop_first(), all, expanded);
            lemma_concat_contains(here, rest, r);
            if here.contains(r) {
                lemma_concat_contains(seq![DrawerRow { id: n.id, category: true }], leaves, r);
                assert(nodes[0].id == n.id);
                if seq![DrawerRow { id: n.id, category: true }].contains(r) {
                    assert(r == DrawerRow { id: n.id, category: true });
                    assert(has_enabled_category(nodes, r.id));
                } else {
                    assert(leaves.contains(r));
                    assert(expanded.contains(n.id));
                    assert(has_enabled_category(nodes, n.id));
                }
            } else {
                if r.category {
                    let m = choose|m: int| 0 <= m < nodes.drop_first().len() && #[trigger] nodes.drop_first()[m].id
                        == r.id && nodes.drop_first()[m].enabled && nodes.drop_first()[m].kind is Category;
                    assert(nodes[m + 1] == nodes.drop_first()[m]);
                } else {
                    let p = choose|p: u32| #[trigger] expanded.contains(p) && has_enabled_category(
                        nodes.drop_first(),
                        p,
                    ) && has_enabled_leaf(all, p, r.id);
                    let m = choose|m: int| 0 <= m < nodes.drop_first().len() && #[trigger] nodes.drop_first()[m].id
                        == p && nodes.drop_first()[m].enabled && nodes.drop_first()[m].kind is Category;
                    assert(nodes[m + 1] == nodes.drop_first()[m]);
                    assert(has_enabled_category(nodes, p));
                }
            }
        }
    }
}

/// Disabled rows are loaded but never drawn: every category row is an
/// enabled category, and every leaf row is an enabled leaf of an enabled
/// category that is expanded — matched by the leaf's own parent column.
pub proof fn law_drawer_shows_only_enabled_rows(nodes: Seq<GuideNode>, expanded: Set<u32>)
    ensures
        forall|r: DrawerRow| #[trigger] rows_of(nodes, nodes, expanded).contains(r) ==> if r.category {
            has_enabled_category(nodes, r.id)
        } else {
            exists|p: u32| #[trigger] expanded.contains(p) && has_enabled_category(nodes, p)
                && has_enabled_leaf(nodes, p, r.id)
        },
{
    lemma_rows_of_sound(nodes, nodes, expanded);
}

/// The table row the selected page names: the first node with that id.
pub fn selected_node(nodes: &[GuideNode], page: Option<u32>) -> (found: Option<usize>)
    ensures
        match found {
            Some(i) => i < nodes@.len() && page == Some(nodes@[i as int].id) && forall|j: int|
                0 <= j < i ==> Some(nodes@[j].id) != page,
            None => forall|j: int| 0 <= j < nodes@.len() ==> Some(nodes@[j].id) != page,
        },
{
    let id = match page {
        Some(id) => id,
        None => return None,
    };
    let mut i: usize = 0;
    while i < nodes.len()
        invariant
            i <= nodes@.len(),
            page == Some(id),
            forall|j: int| 0 <= j < i ==> nodes@[j].id != id,
        decreases nodes@.len() - i,
    {
        if nodes[i].id == id {
            return Some(i);
        }
        i = i + 1;
    }
    None
}

/// The start page's body: its two text boxes, a blank line apart.
pub fn start_page_body(first: &str, second: &str) -> (body: String)
    ensures
        body@ == first@ + seq!['\n', '\n'] + second@,
{
    let mut out: Vec<char> = Vec::new();
    push_str(&mut out, first);
    out.push('\n');
    out.push('\n');
    push_str(&mut out, second);
    proof {
        assert(out@ =~= first@ + seq!['\n', '\n'] + second@);
    }
    string_of(&out)
}

/// `x` is in `a + b` when it is in either.
proof fn lemma_contains_concat<A>(a: Seq<A>, b: Seq<A>, x: A)
    requires
        a.contains(x) || b.contains(x),
    ensures
        (a + b).contains(x),
{
    if a.contains(x) {
        let k = choose|k: int| 0 <= k < a.len() && a[k] == x;
        assert((a + b)[k] == x);
    } else {
        let k = choose|k: int| 0 <= k < b.len() && b[k] == x;
        assert((a + b)[a.len() + k] == x);
    }
}

/// Every enabled leaf of `parent` is among `parent`'s leaf rows.
proof fn lemma_leaf_rows_complete(all: Seq<GuideNode>, parent: u32, m: int)
    requires
        0 <= m < all.len(),
        all[m].enabled,
        all[m].kind == (GuideKind::Leaf { parent }),
    ensures
        leaf_rows(all, parent).contains(DrawerRow { id: all[m].id, category: false }),
    decreases all.len(),
{
    let n = all[0];
    let here = if n.enabled && n.kind == (GuideKind::Leaf { parent }) {
        seq![DrawerRow { id: n.id, category: false }]
    } else {
        Seq::empty()
    };
    let r = DrawerRow { id: all[m].id, category: false };
    if m == 0 {
        assert(here[0] == r);
        lemma_contains_concat(here, leaf_rows(all.drop_first(), parent), r);
    } else {
        assert(all.drop_first()[m - 1] == all[m]);
        lemma_leaf_rows_complete(all.drop_first(), parent, m - 1);
        lemma_contains_concat(here, leaf_rows(all.drop_first(), parent), r);
    }
}

/// The rows of `nodes` include an enabled category's row and, when it is
/// expanded, each of its leaf rows.
proof fn lemma_rows_of_complete(
    nodes: Seq<GuideNode>,
    all: Seq<GuideNode>,
    expanded: Set<u32>,
    c: int,
    r: DrawerRow,
)
    requires
        0 <= c < nodes.len(),
        nodes[c].enabled,
        nodes[c].kind is Category,
        r == (DrawerRow { id: nodes[c].id, category: true }) || (expanded.contains(nodes[c].id)
            && leaf_rows(all, nodes[c].id).contains(r)),
    ensures
        rows_of(nodes, all, expanded).contains(r),
    decreases nodes.len(),
{
    let n = nodes[0];
    let here = if n.enabled && n.kind is Category {
        seq![DrawerRow { id: n.id, category: true }] + if expanded.contains(n.id) {
            leaf_rows(all, n.id)
        } else {
            Seq::empty()
        }
    } else {
        Seq::empty()
    };
    let rest = rows_of(nodes.drop_first(), all, expanded);
    if c == 0 {
        let head = seq![DrawerRow { id: n.id, category: true }];
        let tail = if expanded.contains(n.id) {
            leaf_rows(all, n.id)
        } else {
            Seq::<DrawerRow>::empty()
        };
        if r == (DrawerRow { id: n.id, category: true }) {
            assert(head[0] == r);
        }
        lemma_contains_concat(head, tail, r);
        lemma_contains_concat(here, rest, r);
    } else {
        assert(nodes.drop_first()[c - 1] == nodes[c]);
        lemma_rows_of_complete(nodes.drop_first(), all, expanded, c - 1, r);
        lemma_contains_concat(here, rest, r);
    }
}

/// The drawer is complete: every enabled category has its row, and when it
/// is expanded every one of its enabled leaves appears too, however many
/// children the category's own row declares.
pub proof fn law_drawer_shows_every_enabled_leaf(nodes: Seq<GuideNode>, expanded: Set<u32>, c: int, l: int)
    requires
        0 <= c < nodes.len(),
        nodes[c].enabled,
        nodes[c].kind is Category,
    ensures
        rows_of(nodes, nodes, expanded).contains(DrawerRow { id: nodes[c].id, category: true }),
        0 <= l < nodes.len() && nodes[l].enabled && nodes[l].kind == (GuideKind::Leaf {
            parent: nodes[c].id,
        }) && expanded.contains(nodes[c].id) ==> rows_of(nodes, nodes, expanded).contains(
            DrawerRow { id: nodes[l].id, category: false },
        ),
{
    lemma_rows_of_complete(nodes, nodes, expanded, c, DrawerRow { id: nodes[c].id, category: true });
    if 0 <= l < nodes.len() && nodes[l].enabled && nodes[l].kind == (GuideKind::Leaf {
        parent: nodes[c].id,
    }) && expanded.contains(nodes[c].id) {
        lemma_leaf_rows_complete(nodes, nodes[c].id, l);
        lemma_rows_of_complete(nodes, nodes, expanded, c, DrawerRow { id: nodes[l].id, category: false });
    }
}

} // verus!
