//! NPC dialog session state.
//!
//! The dialog opens the moment the talk request goes out — everything it
//! shows is client-side data, and the server's ack is only logged.
//! Deselecting the NPC (Esc, clicking another target), the NPC despawning,
//! or walking away ends the session with a close request.
use vstd::prelude::*;

verus! {

/// Walking farther than this (render units) from the NPC ends the session.
pub const WALK_AWAY_DISTANCE: u32 = 80;

/// Which page of the dialog is showing.
#[derive(Clone, Copy, Debug, PartialEq, Eq, Structural)]
pub enum DialogPage {
    /// Greeting + option list.
    Options,
    /// The "Talk to this person." chat page.
    Talk,
}

/// The dialog session; an NPC is named by its entity id.
#[derive(Clone, Copy, Debug, PartialEq, Eq, Structural)]
pub enum NpcDialogState {
    Closed,
    Open { npc: u64, page: DialogPage },
}

impl NpcDialogState {
    pub open spec fn spec_npc(self) -> Option<u64> {
        match self {
            NpcDialogState::Closed => None,
            NpcDialogState::Open { npc, .. } => Some(npc),
        }
    }

    /// The NPC the session is with, if one is open.
    pub fn npc(&self) -> (npc: Option<u64>)
        ensures
            npc == self.spec_npc(),
    {
        match self {
            NpcDialogState::Closed => None,
            NpcDialogState::Open { npc, .. } => Some(*npc),
        }
    }
}

/// The talk request went out: open the dialog on its option page.
pub fn on_talk_started(state: &mut NpcDialogState, npc: u64)
    ensures
        *final(state) == (NpcDialogState::Open { npc, page: DialogPage::Options }),
{
    *state = NpcDialogState::Open { npc, page: DialogPage::Options };
}

/// What ending a session asks of the wire.
#[derive(Clone, Copy, Debug, PartialEq, Eq, Structural)]
pub enum CloseOutcome {
    /// The session stays as it is.
    Unchanged,
    /// The session ended; send a close for `unique_id` when the NPC still has
    /// a network id to address (a despawned one does not).
    Closed { send_close_to: Option<u32> },
}

/// End the session when the NPC is deselected (Esc, another target) or
/// despawned. `selected` is the current selection, `npc_id` the NPC's
/// network id (`None` once it despawned).
pub fn close_on_deselect(state: &mut NpcDialogState, selected: Option<u64>, npc_id: Option<u32>) -> (outcome: CloseOutcome)
    ensures
        match old(state).spec_npc() {
            None => outcome == CloseOutcome::Unchanged && *final(state) == *old(state),
            Some(npc) => if selected != Some(npc) || npc_id is None {
                outcome == (CloseOutcome::Closed { send_close_to: npc_id })
                    && *final(state) == NpcDialogState::Closed
            } else {
                outcome == CloseOutcome::Unchanged && *final(state) == *old(state)
            },
        },
{
    let npc = match state.npc() {
        None => return CloseOutcome::Unchanged,
        Some(npc) => npc,
    };
    let still_selected = match selected {
        Some(s) => s == npc,
        None => false,
    };
    if !still_selected || npc_id.is_none() {
        *state = NpcDialogState::Closed;
        return CloseOutcome::Closed { send_close_to: npc_id };
    }
    CloseOutcome::Unchanged
}

/// End the session when the player walked out of range. `npc_id` is the
/// NPC's network id when both the player and the NPC are present, and
/// `walked_away` says whether the distance between them exceeds
/// [`WALK_AWAY_DISTANCE`].
pub fn close_on_walk_away(state: &mut NpcDialogState, npc_id: Option<u32>, walked_away: bool) -> (send_close_to: Option<u32>)
    ensures
        if old(state).spec_npc() is Some && npc_id is Some && walked_away {
            send_close_to == npc_id && *final(state) == NpcDialogState::Closed
        } else {
            send_close_to is None && *final(state) == *old(state)
        },
{
    if state.npc().is_none() {
        return None;
    }
    match npc_id {
        Some(id) => {
            if walked_away {
                *state = NpcDialogState::Closed;
                Some(id)
            } else {
                None
            }
        },
        None => None,
    }
}

/// The close request to send for an NPC the caller resolved (`None` when it
/// has no network id, which sends nothing).
pub fn send_close(id: Option<u32>) -> (request: Option<u32>)
    ensures
        request == id,
{
    id
}

/// A dialog option that opens another window for this NPC.
#[derive(Clone, Copy, Debug, PartialEq, Eq, Structural)]
pub struct OpenStore {
    pub npc: u64,
}

#[derive(Clone, Copy, Debug, PartialEq, Eq, Structural)]
pub struct OpenTeleport {
    pub npc: u64,
}

#[derive(Clone, Copy, Debug, PartialEq, Eq, Structural)]
pub struct OpenStorage {
    pub npc: u64,
}

/// The warehouse NPC's other option: a different opcode family with its own
/// gates, so a message of its own rather than a flag on [`OpenStorage`].
#[derive(Clone, Copy, Debug, PartialEq, Eq, Structural)]
pub struct OpenGuildStorage {
    pub npc: u64,
}

} // verus!
