//! Pausing: the escape key flips the pause, and presentation is told what
//! to do about it.

use vstd::prelude::*;

verus! {

#[derive(Clone, Copy, Debug, PartialEq, Eq, Structural)]
pub struct PauseState {
    pub paused: bool,
}

/// What presentation is to do after the pause flipped.
#[derive(Clone, Copy, Debug, PartialEq, Eq, Structural)]
pub enum PauseAction {
    /// Stop the game's clock and show the pause menu.
    ShowMenu,
    /// Start the clock again and take the pause menu away.
    HideMenu,
}

impl PauseState {
    pub fn new() -> (state: PauseState)
        ensures
            !state.paused,
    {
        PauseState { paused: false }
    }
}

/// Flips the pause when escape was pressed this tick, and says what
/// follows; does nothing otherwise.
pub fn toggle_pause(state: &mut PauseState, escape_pressed: bool) -> (action: Option<PauseAction>)
    ensures
        final(state).paused == (old(state).paused != escape_pressed),
        action == (if !escape_pressed {
            None
        } else if old(state).paused {
            Some(PauseAction::HideMenu)
        } else {
            Some(PauseAction::ShowMenu)
        }),
{
    if !escape_pressed {
        return None;
    }
    state.paused = !state.paused;
    if state.paused {
        Some(PauseAction::ShowMenu)
    } else {
        Some(PauseAction::HideMenu)
    }
}

} // verus!
