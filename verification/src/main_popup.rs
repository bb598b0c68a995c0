//! The MainPopup group: windows the game ships as one tabbed frame whose
//! pages are mutually exclusive. Opening one page puts the others away, and
//! the group names the page that is showing.
use vstd::prelude::*;

verus! {

/// The pages of the frame this client implements, in the order the
/// exclusivity sweep reads their open flags.
#[derive(Clone, Copy, Debug, PartialEq, Eq, Structural)]
pub enum MainPopupPage {
    Inventory,
    Character,
    Skill,
    Action,
    Party,
}

pub open spec fn page_at(index: int) -> MainPopupPage {
    if index == 0 {
        MainPopupPage::Inventory
    } else if index == 1 {
        MainPopupPage::Character
    } else if index == 2 {
        MainPopupPage::Skill
    } else if index == 3 {
        MainPopupPage::Action
    } else {
        MainPopupPage::Party
    }
}

impl MainPopupPage {
    /// Every page, in sweep order.
    pub fn all() -> (pages: [MainPopupPage; 5])
        ensures
            forall|i: int| 0 <= i < 5 ==> #[trigger] pages@[i] == page_at(i),
    {
        [
            MainPopupPage::Inventory,
            MainPopupPage::Character,
            MainPopupPage::Skill,
            MainPopupPage::Action,
            MainPopupPage::Party,
        ]
    }
}

/// Which page is showing, if any.
#[derive(Clone, Copy, Debug, PartialEq, Eq, Structural)]
pub struct MainPopupState {
    pub page: Option<MainPopupPage>,
}

/// The index of the page that went from closed to open, the first one when
/// several did. A page that was already open never wins — without the edge
/// test two open pages would fight for the rest of the session.
pub fn newly_opened(previous: [bool; 5], current: [bool; 5]) -> (winner: Option<usize>)
    ensures
        match winner {
            Some(w) => w < 5 && current@[w as int] && !previous@[w as int] && forall|j: int|
                0 <= j < w ==> !(current@[j] && !previous@[j]),
            None => forall|j: int| 0 <= j < 5 ==> !(current@[j] && !previous@[j]),
        },
{
    let mut i: usize = 0;
    while i < 5
        invariant
            i <= 5,
            forall|j: int| 0 <= j < i ==> !(current@[j] && !previous@[j]),
        decreases 5 - i,
    {
        if current[i] && !previous[i] {
            return Some(i);
        }
        i = i + 1;
    }
    None
}

/// The open flags after the sweep: the newly opened page, if there is one,
/// is the only page left open; otherwise nothing changes.
pub open spec fn settled_flags(current: Seq<bool>, winner: Option<usize>) -> Seq<bool> {
    match winner {
        Some(w) => Seq::new(5, |i: int| i == w),
        None => current,
    }
}

/// The first open page, if any.
pub open spec fn first_open(flags: Seq<bool>) -> Option<MainPopupPage> {
    if flags[0] {
        Some(MainPopupPage::Inventory)
    } else if flags[1] {
        Some(MainPopupPage::Character)
    } else if flags[2] {
        Some(MainPopupPage::Skill)
    } else if flags[3] {
        Some(MainPopupPage::Action)
    } else if flags[4] {
        Some(MainPopupPage::Party)
    } else {
        None
    }
}

/// One sweep: `previous` is last frame's settled flags, `current` this
/// frame's. Returns the flags every page must take (only those that change
/// are written back) and updates the group's page.
pub fn enforce_page_exclusivity(
    popup: &mut MainPopupState,
    previous: [bool; 5],
    current: [bool; 5],
) -> (settled: [bool; 5])
    ensures
        ({
            let winner = match newly_opened_spec_witness(previous@, current@) {
                Some(w) => Some(w as usize),
                None => None,
            };
            &&& settled@ == settled_flags(current@, winner)
            &&& final(popup).page == first_open(settled@)
        }),
{
    let winner = newly_opened(previous, current);
    let mut settled = current;
    match winner {
        Some(w) => {
            let mut i: usize = 0;
            while i < 5
                invariant
                    w < 5,
                    i <= 5,
                    forall|j: int| 0 <= j < i ==> settled@[j] == (j == w),
                    forall|j: int| i <= j < 5 ==> settled@[j] == current@[j],
                    current@[w as int],
                decreases 5 - i,
            {
                if i != w && settled[i] {
                    settled[i] = false;
                }
                i = i + 1;
            }
            proof {
                assert(settled@ =~= Seq::new(5, |i: int| i == w));
            }
        },
        None => {},
    }
    proof {
        lemma_witness_is_the_winner(previous@, current@, winner);
    }
    let pages = MainPopupPage::all();
    let mut page: Option<MainPopupPage> = None;
    let mut k: usize = 0;
    while k < 5
        invariant
            k <= 5,
            forall|i: int| 0 <= i < 5 ==> #[trigger] pages@[i] == page_at(i),
            page is None ==> forall|j: int| 0 <= j < k ==> !settled@[j],
            page is Some ==> page == first_open(settled@),
        decreases 5 - k,
    {
        if page.is_none() && settled[k] {
            page = Some(pages[k]);
            proof {
                assert(pages@[k as int] == page_at(k as int));
            }
        }
        k = k + 1;
    }
    if popup.page != page {
        popup.page = page;
    }
    settled
}

/// The first newly opened page, as an index.
pub open spec fn newly_opened_spec_witness(previous: Seq<bool>, current: Seq<bool>) -> Option<int> {
    first_edge(previous, current, 0)
}

/// The first index at or after `from` that went from closed to open.
pub open spec fn first_edge(previous: Seq<bool>, current: Seq<bool>, from: int) -> Option<int>
    decreases 5 - from,
{
    if from < 0 || from >= 5 {
        None
    } else if current[from] && !previous[from] {
        Some(from)
    } else {
        first_edge(previous, current, from + 1)
    }
}

proof fn lemma_first_edge(previous: Seq<bool>, current: Seq<bool>, from: int)
    requires
        0 <= from <= 5,
    ensures
        match first_edge(previous, current, from) {
            Some(w) => from <= w < 5 && current[w] && !previous[w] && forall|j: int|
                from <= j < w ==> !(current[j] && !previous[j]),
            None => forall|j: int| from <= j < 5 ==> !(current[j] && !previous[j]),
        },
    decreases 5 - from,
{
    if from < 5 && !(current[from] && !previous[from]) {
        lemma_first_edge(previous, current, from + 1);
    }
}

proof fn lemma_witness_is_the_winner(previous: Seq<bool>, current: Seq<bool>, winner: Option<usize>)
    requires
        match winner {
            Some(w) => w < 5 && current[w as int] && !previous[w as int] && forall|j: int|
                0 <= j < w ==> !(current[j] && !previous[j]),
            None => forall|j: int| 0 <= j < 5 ==> !(current[j] && !previous[j]),
        },
    ensures
        match newly_opened_spec_witness(previous, current) {
            Some(w) => winner == Some(w as usize),
            None => winner is None,
        },
{
    lemma_first_edge(previous, current, 0);
}

/// At most one of five flags is set.
pub open spec fn at_most_one_open(flags: Seq<bool>) -> bool {
    forall|i: int, j: int| 0 <= i < 5 && 0 <= j < 5 && flags[i] && flags[j] ==> i == j
}

/// The group can only show one page at a time: starting from a settled
/// state with at most one page open, whatever the pages' own hotkeys opened
/// or closed this frame, the sweep settles on at most one open page — and
/// when a page was just opened, it is that one.
pub proof fn law_one_page_at_a_time(previous: Seq<bool>, current: Seq<bool>)
    requires
        previous.len() == 5,
        current.len() == 5,
        at_most_one_open(previous),
    ensures
        ({
            let winner = match newly_opened_spec_witness(previous, current) {
                Some(w) => Some(w as usize),
                None => None,
            };
            let settled = settled_flags(current, winner);
            &&& at_most_one_open(settled)
            &&& (winner matches Some(w) ==> settled[w as int] && first_open(settled) == Some(
                page_at(w as int),
            ))
        }),
{
    lemma_first_edge(previous, current, 0);
    match newly_opened_spec_witness(previous, current) {
        Some(w) => {
            let settled = Seq::new(5, |i: int| i == w);
            assert(settled[w]);
            if w >= 1 {
                assert(!settled[0]);
            }
            if w >= 2 {
                assert(!settled[1]);
            }
            if w >= 3 {
                assert(!settled[2]);
            }
            if w >= 4 {
                assert(!settled[3]);
            }
        },
        None => {
            assert forall|i: int, j: int|
                0 <= i < 5 && 0 <= j < 5 && current[i] && current[j] implies i == j by {
                assert(previous[i] && previous[j]);
            }
        },
    }
}

} // verus!
