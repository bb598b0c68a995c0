//! Local-player death window and resurrect.
//!
//! Death is a life-state flip on the player's own id, which raises the
//! [`PlayerDeath`] flag. While dead the world input is locked; the window
//! offers the town return (option byte 1), the present point (byte 2) and
//! "waiting for help", which sends nothing, puts the box away and comes back
//! when the player clicks their own corpse. A revive clears the flag.
use vstd::prelude::*;

verus! {

pub const PRESENT_POINT_LABEL: (&'static str, &'static str) = (
    "UIIT_MSG_MSGBOX_REBIRTH_STANDING_BUTTON",
    "Resurrect at the present point.",
);
pub const WAIT_FOR_HELP_LABEL: (&'static str, &'static str) = (
    "UIIT_MSG_MSGBOX_REBIRTH_HELP_BUTTON",
    "Waiting for other player's help.",
);
pub const SPECIFIED_POINT_LABEL: (&'static str, &'static str) = (
    "UIIT_MSG_MSGBOX_REBIRTH_POINT_BUTTON",
    "Resurrect at the specified point.",
);
/// Shown when a sent request goes unanswered.
pub const UNANSWERED_NOTICE: &'static str = "No answer — try the other option.";

/// The rebirth art's native extents, `(w, h)`.
pub const REBIRTH_BUTTON_SIZE: (u32, u32) = (176, 24);
pub const REBIRTH_HEADER_SIZE: (u32, u32) = (148, 52);
/// The content area inside the window chrome.
pub const CONTENT_W: u32 = 240;
pub const CONTENT_H: u32 = 164;
/// How long a sent request may go unanswered before the window admits it.
pub const RESURRECT_TIMEOUT_MS: u32 = 3000;

/// The resurrect request: its option byte.
#[derive(Clone, Copy, Debug, PartialEq, Eq, Structural)]
pub struct GetUpRequest {
    pub option: u8,
}

impl GetUpRequest {
    /// "Resurrect at the specified point.": the town return.
    pub fn return_to_town() -> (r: GetUpRequest)
        ensures
            r.option == 1,
    {
        GetUpRequest { option: 1 }
    }

    /// "Resurrect at the present point."
    pub fn present_point() -> (r: GetUpRequest)
        ensures
            r.option == 2,
    {
        GetUpRequest { option: 2 }
    }
}

/// The local player's death flag.
#[derive(Clone, Copy, Debug, PartialEq, Eq, Structural)]
pub struct PlayerDeath {
    pub dead: bool,
    /// The player picked "waiting for help": still dead and input-locked, but
    /// the box is out of the way until the corpse is clicked.
    pub window_hidden: bool,
}

pub open spec fn after_set_dead(d: PlayerDeath) -> PlayerDeath {
    PlayerDeath { dead: true, window_hidden: if d.dead { d.window_hidden } else { false } }
}

pub open spec fn after_set_alive(d: PlayerDeath) -> PlayerDeath {
    PlayerDeath { dead: false, window_hidden: false }
}

pub open spec fn after_wait_for_help(d: PlayerDeath) -> PlayerDeath {
    PlayerDeath { window_hidden: true, ..d }
}

impl PlayerDeath {
    pub fn new() -> (d: PlayerDeath)
        ensures
            !d.dead && !d.window_hidden,
    {
        PlayerDeath { dead: false, window_hidden: false }
    }

    pub open spec fn spec_window_visible(self) -> bool {
        self.dead && !self.window_hidden
    }

    /// Enter the death state. Only an alive-to-dead transition un-hides the
    /// window, so repeated death pushes for one death cannot pop a box the
    /// player dismissed.
    pub fn set_dead(&mut self)
        ensures
            *final(self) == after_set_dead(*old(self)),
    {
        if !self.dead {
            self.window_hidden = false;
        }
        self.dead = true;
    }

    /// Revive: leave the death state and re-arm the window for the next death.
    pub fn set_alive(&mut self)
        ensures
            *final(self) == after_set_alive(*old(self)),
    {
        self.dead = false;
        self.window_hidden = false;
    }

    /// The window is on screen: dead, and not dismissed to wait for help.
    pub fn window_visible(&self) -> (v: bool)
        ensures
            v == self.spec_window_visible(),
    {
        self.dead && !self.window_hidden
    }
}

/// Run condition: while dead, world input (move/select) is locked.
pub fn player_is_dead(death: &PlayerDeath) -> (dead: bool)
    ensures
        dead == death.dead,
{
    death.dead
}

/// "Waiting for other player's help.": hide the box, keep the death state.
pub fn on_wait_for_help_button(death: &mut PlayerDeath)
    ensures
        *final(death) == after_wait_for_help(*old(death)),
{
    death.window_hidden = true;
}

/// Clicking your own corpse re-opens the box after "waiting for help"
/// dismissed it. `left_pressed` is this frame's left click and `ray_hits`
/// whether the cursor ray passes through one of the corpse's parts.
pub fn reopen_death_window_on_corpse_click(death: &mut PlayerDeath, left_pressed: bool, ray_hits: bool)
    ensures
        *final(death) == (if old(death).dead && old(death).window_hidden && left_pressed && ray_hits {
            PlayerDeath { window_hidden: false, ..*old(death) }
        } else {
            *old(death)
        }),
{
    if !death.dead || !death.window_hidden || !left_pressed {
        return;
    }
    if ray_hits {
        death.window_hidden = false;
    }
}

/// Leaving the world drops the window and resets the flag, so a re-entry
/// starts alive.
pub fn cleanup_death_window(death: &mut PlayerDeath)
    ensures
        *final(death) == after_set_alive(*old(death)),
{
    death.set_alive();
}

/// What the death window's rebuild does this frame.
#[derive(Clone, Copy, Debug, PartialEq, Eq, Structural)]
pub enum DeathWindowAction {
    /// Nothing to do.
    Keep,
    /// Spawn the window and its scrim.
    Spawn,
    /// Tear down the window and the scrim.
    Despawn,
}

/// Spawn the window when the flag says it is visible and none is showing;
/// tear it down when the flag says it is not. Only runs on a change.
pub fn sync_death_window(death: &PlayerDeath, changed: bool, showing: bool) -> (action: DeathWindowAction)
    ensures
        action == (if !changed {
            DeathWindowAction::Keep
        } else if !death.spec_window_visible() {
            DeathWindowAction::Despawn
        } else if showing {
            DeathWindowAction::Keep
        } else {
            DeathWindowAction::Spawn
        }),
{
    if !changed {
        return DeathWindowAction::Keep;
    }
    if !death.window_visible() {
        return DeathWindowAction::Despawn;
    }
    if showing {
        return DeathWindowAction::Keep;
    }
    DeathWindowAction::Spawn
}

/// The "no answer" line appears on the frame the request clock crosses the
/// timeout, never again.
pub fn crossed_resurrect_timeout(before_ms: u32, after_ms: u32) -> (crossed: bool)
    ensures
        crossed == (before_ms < RESURRECT_TIMEOUT_MS && after_ms >= RESURRECT_TIMEOUT_MS),
{
    before_ms < RESURRECT_TIMEOUT_MS && after_ms >= RESURRECT_TIMEOUT_MS
}

/// The in-flight resurrect request, for the "no answer" line.
#[derive(Clone, Copy, Debug, PartialEq, Eq, Structural)]
pub struct ResurrectRequest {
    /// Milliseconds since the request went out, while still dead and
    /// unanswered.
    pub waiting_ms: Option<u32>,
}

/// A request went out: start the clock.
pub fn on_request_sent(pending: &mut ResurrectRequest)
    ensures
        final(pending).waiting_ms == Some(0u32),
{
    pending.waiting_ms = Some(0);
}

/// Advance the request clock by `delta_ms`. A revive stops it; the clock only
/// runs for a request that was actually sent. Returns whether the "no
/// answer" line is due this frame.
pub fn notice_unanswered_resurrect(pending: &mut ResurrectRequest, death: &PlayerDeath, delta_ms: u32) -> (notice: bool)
    ensures
        !death.dead ==> final(pending).waiting_ms is None && !notice,
        death.dead ==> match old(pending).waiting_ms {
            None => final(pending).waiting_ms is None && !notice,
            Some(w) => {
                let after = if w + delta_ms > u32::MAX { u32::MAX as int } else { w + delta_ms };
                &&& final(pending).waiting_ms == Some(after as u32)
                &&& notice == (w < RESURRECT_TIMEOUT_MS && after >= RESURRECT_TIMEOUT_MS)
            },
        },
{
    if !death.dead {
        pending.waiting_ms = None;
        return false;
    }
    match pending.waiting_ms {
        None => false,
        Some(w) => {
            let after = if w <= u32::MAX - delta_ms {
                w + delta_ms
            } else {
                u32::MAX
            };
            pending.waiting_ms = Some(after);
            crossed_resurrect_timeout(w, after)
        },
    }
}

/// The death state's three promises: dismissing the box to wait for help
/// never leaves the death state (the input lock keys off `dead`); a repeat
/// death push for the same death does not bring a dismissed box back; and a
/// revive re-arms the box, so the next death shows it.
pub proof fn law_death_window_lifecycle(d: PlayerDeath)
    ensures
        after_wait_for_help(d).dead == d.dead,
        !after_wait_for_help(d).spec_window_visible(),
        d.dead ==> after_set_dead(after_wait_for_help(d)) == after_wait_for_help(d),
        after_set_dead(after_set_alive(d)).spec_window_visible(),
        !after_set_alive(d).dead,
{
}

/// A sent request's "no answer" line fires exactly once: the clock is
/// monotone, so only one frame can cross the timeout.
pub proof fn law_notice_fires_once(a: u32, b: u32, c: u32)
    requires
        a <= b <= c,
    ensures
        !((a < RESURRECT_TIMEOUT_MS && b >= RESURRECT_TIMEOUT_MS) && (b < RESURRECT_TIMEOUT_MS
            && c >= RESURRECT_TIMEOUT_MS)),
{
}

} // verus!
