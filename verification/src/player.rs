use vstd::prelude::*;

use crate::game_state::GameState;

verus! {

/// How the mouse cursor is held.
#[derive(Clone, Copy, Debug, PartialEq, Eq, Structural)]
pub enum CursorMode {
    /// Grabbed by the window and hidden: mouse motion turns the view.
    Locked,
    /// Released and shown.
    Free,
}

/// The cursor mode for this frame: locked during a run, free on the menus;
/// left alone (`None`) in the frame Escape is pressed, which releases it.
pub fn lock_cursor(escape_just_pressed: bool, state: GameState) -> (mode: Option<CursorMode>)
    ensures
        mode == (if escape_just_pressed {
            None::<CursorMode>
        } else if state == GameState::Playing {
            Some(CursorMode::Locked)
        } else {
            Some(CursorMode::Free)
        }),
{
    if escape_just_pressed {
        return None;
    }
    match state {
        GameState::Playing => Some(CursorMode::Locked),
        _ => Some(CursorMode::Free),
    }
}

/// The movement keys held in this frame.
#[derive(Clone, Copy, Debug, PartialEq, Eq, Structural)]
pub struct MoveKeys {
    pub w: bool,
    pub up: bool,
    pub s: bool,
    pub down: bool,
    pub a: bool,
    pub left: bool,
    pub d: bool,
    pub right: bool,
}

/// Where the player wants to walk, relative to where they face: `forward`
/// and `strafe` (to the right) are each -1, 0 or 1.
#[derive(Clone, Copy, Debug, PartialEq, Eq, Structural)]
pub struct MoveIntent {
    pub forward: i8,
    pub strafe: i8,
}

/// `1` for a held key, `0` otherwise.
pub open spec fn held(key: bool) -> int {
    if key { 1 } else { 0 }
}

/// Reads the movement keys: W or Up walks forward, S or Down back, A or Left
/// steps left, D or Right right; opposite keys cancel. While a room change
/// is under way (`blocked`) the player stands still.
pub fn movement_intent(keys: MoveKeys, blocked: bool) -> (intent: MoveIntent)
    ensures
        blocked ==> intent.forward == 0 && intent.strafe == 0,
        !blocked ==> intent.forward == held(keys.w || keys.up) - held(keys.s || keys.down),
        !blocked ==> intent.strafe == held(keys.d || keys.right) - held(keys.a || keys.left),
{
    if blocked {
        return MoveIntent { forward: 0, strafe: 0 };
    }
    let mut forward: i8 = 0;
    let mut strafe: i8 = 0;
    if keys.w || keys.up {
        forward = forward + 1;
    }
    if keys.s || keys.down {
        forward = forward - 1;
    }
    if keys.a || keys.left {
        strafe = strafe - 1;
    }
    if keys.d || keys.right {
        strafe = strafe + 1;
    }
    MoveIntent { forward, strafe }
}

} // verus!
