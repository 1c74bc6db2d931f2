//! Externally supplied player state and its field-wise merge.
//!
//! External callers patch the player state one field at a time: a
//! partial update carries an optional pointer snapshot and an optional
//! pause flag, and merging follows the rule "new if present, else keep
//! old". The merge never clobbers a previously set field with absence.

use vstd::prelude::*;

verus! {

/// Pointer snapshot written to the shader's mouse uniform: the current
/// pointer position and the position at which the primary button was
/// last pressed (zero until a press occurs).
///
/// Each coordinate carries the bit pattern of a single-precision pixel
/// coordinate. The loop never interprets the coordinates; it only
/// stores the snapshot and hands it through to the draw call, so an
/// opaque bit pattern is a faithful and lossless representation.
#[derive(Clone, Copy, Debug, PartialEq, Eq)]
pub struct MouseUniform {
    pub x: u32,
    pub y: u32,
    pub down_x: u32,
    pub down_y: u32,
}

/// A (possibly partial) player state: each field is independently
/// optional so one update can patch a single field while leaving the
/// other untouched.
#[derive(Clone, Copy, Debug, PartialEq, Eq)]
pub struct PlayerState {
    pub mouse: Option<MouseUniform>,
    pub paused: Option<bool>,
}

impl Default for PlayerState {
    /// The state before any external write: both fields unset, so the
    /// loop falls back to "no mouse uniform, not paused".
    fn default() -> (r: PlayerState)
        ensures
            r.mouse is None,
            r.paused is None,
    {
        PlayerState { mouse: None, paused: None }
    }
}

/// Field-wise merge: a field of `upd` that is present replaces the
/// current value; a field that is absent keeps the current value.
pub open spec fn spec_merge(cur: PlayerState, upd: PlayerState) -> PlayerState {
    PlayerState {
        mouse: if upd.mouse is Some {
            upd.mouse
        } else {
            cur.mouse
        },
        paused: if upd.paused is Some {
            upd.paused
        } else {
            cur.paused
        },
    }
}

impl PlayerState {
    /// Merges a partial update into `self`, field-wise.
    pub fn merge(self, upd: PlayerState) -> (r: PlayerState)
        ensures
            r == spec_merge(self, upd),
    {
        PlayerState {
            mouse: if upd.mouse.is_some() {
                upd.mouse
            } else {
                self.mouse
            },
            paused: if upd.paused.is_some() {
                upd.paused
            } else {
                self.paused
            },
        }
    }
}

/// What a successful external player-state update leaves in the shared
/// cell: the update itself when the cell was never initialized, else
/// the field-wise merge into the current value.
pub open spec fn spec_apply_update(current: Option<PlayerState>, upd: PlayerState) -> PlayerState {
    match current {
        Some(cur) => spec_merge(cur, upd),
        None => upd,
    }
}

/// Initialize-or-merge step of an external player-state update.
pub fn apply_player_update(current: Option<PlayerState>, upd: PlayerState) -> (r: PlayerState)
    ensures
        r == spec_apply_update(current, upd),
{
    match current {
        Some(cur) => cur.merge(upd),
        None => upd,
    }
}

/// Initialize-or-merge step of a play/stop call: sets the pause flag
/// and keeps the mouse field of the current value, if any.
pub fn apply_set_paused(current: Option<PlayerState>, value: bool) -> (r: PlayerState)
    ensures
        r.paused == Some(value),
        r.mouse == (match current {
            Some(cur) => cur.mouse,
            None => None::<MouseUniform>,
        }),
{
    match current {
        Some(cur) => PlayerState { paused: Some(value), ..cur },
        None => PlayerState { mouse: None, paused: Some(value) },
    }
}

/// The state after applying a whole sequence of partial updates in
/// order, starting from `init`.
pub open spec fn spec_apply_updates(init: PlayerState, upds: Seq<PlayerState>) -> PlayerState
    decreases upds.len(),
{
    if upds.len() == 0 {
        init
    } else {
        spec_merge(spec_apply_updates(init, upds.drop_last()), upds.last())
    }
}

/// The mouse field of the last update in `upds` that specifies it, or
/// `None` when no update does.
pub open spec fn last_specified_mouse(upds: Seq<PlayerState>) -> Option<MouseUniform>
    decreases upds.len(),
{
    if upds.len() == 0 {
        None
    } else if upds.last().mouse is Some {
        upds.last().mouse
    } else {
        last_specified_mouse(upds.drop_last())
    }
}

/// The pause field of the last update in `upds` that specifies it, or
/// `None` when no update does.
pub open spec fn last_specified_paused(upds: Seq<PlayerState>) -> Option<bool>
    decreases upds.len(),
{
    if upds.len() == 0 {
        None
    } else if upds.last().paused is Some {
        upds.last().paused
    } else {
        last_specified_paused(upds.drop_last())
    }
}

/// Merge law: after any sequence of partial updates, each field equals
/// the value given by the last update that specified that field, and
/// keeps its initial value when no update specified it. Updates that
/// leave a field absent are no-ops on that field.
pub proof fn lemma_merge_last_wins(init: PlayerState, upds: Seq<PlayerState>)
    ensures
        spec_apply_updates(init, upds).mouse == (if last_specified_mouse(upds) is Some {
            last_specified_mouse(upds)
        } else {
            init.mouse
        }),
        spec_apply_updates(init, upds).paused == (if last_specified_paused(upds) is Some {
            last_specified_paused(upds)
        } else {
            init.paused
        }),
    decreases upds.len(),
{
    if upds.len() > 0 {
        lemma_merge_last_wins(init, upds.drop_last());
    }
}

} // verus!
