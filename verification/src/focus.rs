//! Which HUD window Escape closes, and which dialog Enter confirms.
//!
//! A window is stamped when it opens and re-stamped whenever a click lands in
//! it, so "the focused window" is the visible one with the highest stamp.
//! Escape and Enter each go through a per-frame "consumed" flag so one press
//! has one consumer.
use vstd::prelude::*;

verus! {

/// Recency of a window: higher is more recently opened or clicked.
#[derive(Clone, Copy, Debug, PartialEq, Eq, Structural)]
pub struct FocusStamp(pub u64);

/// The stamp counter, monotonic for the session.
pub struct HudFocus {
    pub next: u64,
}

impl HudFocus {
    pub fn new() -> (f: HudFocus)
        ensures
            f.next == 0,
    {
        HudFocus { next: 0 }
    }

    /// A fresh stamp, later than every stamp handed out before.
    pub fn stamp(&mut self) -> (s: FocusStamp)
        requires
            old(self).next < u64::MAX,
        ensures
            (final(self).next as nat, s.0 as nat) == stamp_result(old(self).next as nat),
    {
        self.next = self.next + 1;
        FocusStamp(self.next)
    }
}

/// Whether this frame's Escape press has already been used.
pub struct EscConsumed(pub bool);

/// Whether this frame's Enter press has already been used.
pub struct EnterConsumed(pub bool);

impl EscConsumed {
    /// Take the press for this frame; `false` if something earlier did.
    pub fn claim(&mut self) -> (got: bool)
        ensures
            (got, final(self).0) == claim_result(old(self).0),
    {
        if self.0 {
            return false;
        }
        self.0 = true;
        true
    }
}

impl EnterConsumed {
    /// Take the press for this frame; `false` if something earlier did.
    pub fn claim(&mut self) -> (got: bool)
        ensures
            (got, final(self).0) == claim_result(old(self).0),
    {
        if self.0 {
            return false;
        }
        self.0 = true;
        true
    }
}

/// Cleared at the top of every frame, so a stage that forgets to reset it
/// cannot swallow every future press.
pub fn clear_esc_consumed(consumed: &mut EscConsumed)
    ensures
        !final(consumed).0,
{
    if consumed.0 {
        consumed.0 = false;
    }
}

pub fn clear_enter_consumed(consumed: &mut EnterConsumed)
    ensures
        !final(consumed).0,
{
    if consumed.0 {
        consumed.0 = false;
    }
}

/// True on the frame Enter (either one) went down.
pub fn enter_pressed(enter: bool, numpad_enter: bool) -> (pressed: bool)
    ensures
        pressed == (enter || numpad_enter),
{
    enter || numpad_enter
}

/// A stamped window root: its stamp and whether it is drawn.
#[derive(Clone, Copy, Debug, PartialEq, Eq, Structural)]
pub struct FocusCandidate {
    pub stamp: u64,
    pub shown: bool,
}

/// `i` is the focused candidate: shown, with the highest stamp among the
/// shown ones, and the last such when stamps tie.
pub open spec fn is_focused(windows: Seq<FocusCandidate>, i: int) -> bool {
    &&& 0 <= i < windows.len()
    &&& windows[i].shown
    &&& forall|j: int| 0 <= j < windows.len() && windows[j].shown ==> windows[j].stamp <= windows[i].stamp
    &&& forall|j: int| i < j < windows.len() && windows[j].shown ==> windows[j].stamp < windows[i].stamp
}

/// The focused window: the shown one with the highest stamp.
pub fn focused_window(windows: &[FocusCandidate]) -> (focused: Option<usize>)
    ensures
        match focused {
            Some(i) => is_focused(windows@, i as int),
            None => forall|j: int| 0 <= j < windows@.len() ==> !windows@[j].shown,
        },
{
    let mut best: Option<usize> = None;
    let mut i: usize = 0;
    while i < windows.len()
        invariant
            i <= windows@.len(),
            match best {
                Some(b) => b < i && windows@[b as int].shown
                    && (forall|j: int| 0 <= j < i && windows@[j].shown ==> windows@[j].stamp <= windows@[b as int].stamp)
                    && (forall|j: int| b < j < i && windows@[j].shown ==> windows@[j].stamp < windows@[b as int].stamp),
                None => forall|j: int| 0 <= j < i ==> !windows@[j].shown,
            },
        decreases windows@.len() - i,
    {
        let w = windows[i];
        if w.shown {
            match best {
                None => {
                    best = Some(i);
                },
                Some(b) => {
                    if w.stamp >= windows[b].stamp {
                        best = Some(i);
                    }
                },
            }
        }
        i = i + 1;
    }
    best
}

/// What a key press does to the focused window or dialog: nothing, or press
/// the control of the candidate at this index.
pub open spec fn spec_key_target(
    pressed: bool,
    chat_open: bool,
    options_open: bool,
    windows: Seq<FocusCandidate>,
    already_consumed: bool,
) -> Option<int> {
    if !pressed || chat_open || options_open || already_consumed {
        None
    } else if exists|i: int| is_focused(windows, i) {
        Some(choose|i: int| is_focused(windows, i))
    } else {
        None
    }
}

/// The window a press lands in: `ancestry` flags, from the entity hit up
/// through its parents to the root, which of them is a HUD window or dialog
/// root; the nearest one is focused. A press outside every window focuses
/// nothing.
pub fn window_of_press(ancestry: &[bool]) -> (hit: Option<usize>)
    ensures
        match hit {
            Some(i) => i < ancestry@.len() && ancestry@[i as int] && forall|j: int|
                0 <= j < i ==> !ancestry@[j],
            None => forall|j: int| 0 <= j < ancestry@.len() ==> !ancestry@[j],
        },
{
    let mut i: usize = 0;
    while i < ancestry.len()
        invariant
            i <= ancestry@.len(),
            forall|j: int| 0 <= j < i ==> !ancestry@[j],
        decreases ancestry@.len() - i,
    {
        if ancestry[i] {
            return Some(i);
        }
        i = i + 1;
    }
    None
}

/// Two candidates cannot both be the focused one.
pub proof fn lemma_focused_is_unique(windows: Seq<FocusCandidate>, i: int, j: int)
    requires
        is_focused(windows, i),
        is_focused(windows, j),
    ensures
        i == j,
{
}

/// Escape closes the focused window, if one is shown: it returns the window
/// whose own (X) is to be pressed. Escape while typing belongs to the chat
/// input, and while the options window is up it belongs to that window.
pub fn close_focused_window_on_esc(
    esc_pressed: bool,
    chat_open: bool,
    options_open: bool,
    windows: &[FocusCandidate],
    consumed: &mut EscConsumed,
) -> (target: Option<usize>)
    ensures
        match target {
            Some(i) => Some(i as int) == spec_key_target(esc_pressed, chat_open, options_open, windows@, old(consumed).0),
            None => spec_key_target(esc_pressed, chat_open, options_open, windows@, old(consumed).0) is None,
        },
        final(consumed).0 == (old(consumed).0 || target is Some),
{
    if !esc_pressed || chat_open || options_open {
        return None;
    }
    let focused = focused_window(windows);
    match focused {
        None => None,
        Some(i) => {
            proof {
                assert(is_focused(windows@, i as int));
                let c = choose|k: int| is_focused(windows@, k);
                lemma_focused_is_unique(windows@, i as int, c);
            }
            if !consumed.claim() {
                return None;
            }
            Some(i)
        },
    }
}

/// Enter confirms the focused dialog, if one is shown, and claims the press
/// so it does not also open the chat box underneath.
pub fn confirm_focused_dialog_on_enter(
    enter: bool,
    chat_open: bool,
    options_open: bool,
    dialogs: &[FocusCandidate],
    consumed: &mut EnterConsumed,
) -> (target: Option<usize>)
    ensures
        match target {
            Some(i) => Some(i as int) == spec_key_target(enter, chat_open, options_open, dialogs@, old(consumed).0),
            None => spec_key_target(enter, chat_open, options_open, dialogs@, old(consumed).0) is None,
        },
        final(consumed).0 == (old(consumed).0 || target is Some),
{
    if !enter || chat_open || options_open {
        return None;
    }
    let focused = focused_window(dialogs);
    match focused {
        None => None,
        Some(i) => {
            proof {
                let c = choose|k: int| is_focused(dialogs@, k);
                lemma_focused_is_unique(dialogs@, i as int, c);
            }
            if !consumed.claim() {
                return None;
            }
            Some(i)
        },
    }
}

/// Claiming a press: whether the claim got it, and the flag afterwards.
pub open spec fn claim_result(consumed: bool) -> (bool, bool) {
    (!consumed, true)
}

/// One press, one consumer: after any claim a second claim in the same frame
/// fails, and clearing the flag for the next frame lets the next press be
/// claimed again.
pub proof fn law_a_press_is_claimed_once(consumed: bool)
    ensures
        !claim_result(claim_result(consumed).1).0,
        claim_result(false).0,
{
}

/// Stamps are strictly increasing, which is the whole ordering: a window
/// stamped later always outranks one stamped earlier.
pub proof fn law_stamps_increase(next: nat)
    ensures
        stamp_result(stamp_result(next).0).1 > stamp_result(next).1,
{
}

/// Stamping: the counter afterwards, and the stamp handed out.
pub open spec fn stamp_result(next: nat) -> (nat, nat) {
    (next + 1, next + 1)
}

} // verus!
