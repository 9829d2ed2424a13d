//! Session-level state around the bullpen scene: the parameter menu's
//! visibility state, the player mode, and the pitcher/batter camera swap.
//! The widgets themselves live outside this crate; the state and its
//! transitions are here.

use vstd::prelude::*;

verus! {

/// The tabs of the parameter menu.
#[derive(Debug, Clone, Copy, PartialEq, Eq, Structural)]
pub enum MenuTab {
    Parameters,
    Controls,
    Settings,
}

impl Default for MenuTab {
    fn default() -> (r: Self)
        ensures
            r == MenuTab::Parameters,
    {
        MenuTab::Parameters
    }
}

/// The parameter menu's state.
#[derive(Debug, Clone, Copy, PartialEq, Eq, Structural)]
pub struct MenuState {
    pub visibility: bool,
    pub selected_tab: MenuTab,
    pub metric: bool,
}

impl Default for MenuState {
    fn default() -> (r: Self)
        ensures
            r == (MenuState { visibility: false, selected_tab: MenuTab::Parameters, metric: false }),
    {
        MenuState { visibility: false, selected_tab: MenuTab::Parameters, metric: false }
    }
}

/// Whether the menu's visibility matches the asked-for value.
pub fn menu_visibility_is(state: &MenuState, visibility: bool) -> (r: bool)
    ensures
        r == (state.visibility == visibility),
{
    state.visibility == visibility
}

/// The menu shows exactly while the window's cursor is not grabbed.
pub fn toggle_menu_visibility(state: &mut MenuState, cursor_grab_none: bool)
    ensures
        final(state).visibility == cursor_grab_none,
        final(state).selected_tab == old(state).selected_tab,
        final(state).metric == old(state).metric,
{
    state.visibility = cursor_grab_none;
}

/// Which side the player is controlling.
#[derive(Debug, Clone, Copy, PartialEq, Eq, Structural)]
pub enum PlayerMode {
    Pitcher,
    Batter,
}

/// The event announcing the player picked a mode.
#[derive(Debug, Clone, Copy, PartialEq, Eq, Structural)]
pub struct PlayerModeSelected(pub PlayerMode);

/// The bullpen scene's game mode.
#[derive(Debug, Clone, Copy, PartialEq, Eq, Structural)]
pub enum BullpenSceneGameMode {
    Pitcher,
    Batter,
}

impl Default for BullpenSceneGameMode {
    fn default() -> (r: Self)
        ensures
            r == BullpenSceneGameMode::Pitcher,
    {
        BullpenSceneGameMode::Pitcher
    }
}

/// What a camera swap sets: which camera is live, whether the pitcher
/// camera grabs the cursor, and the mode the scene moves to.
#[derive(Debug, Clone, Copy, PartialEq, Eq, Structural)]
pub struct CameraSwap {
    pub pitcher_camera_active: bool,
    pub batter_camera_active: bool,
    pub pitcher_cursor_lock: bool,
    pub next_mode: BullpenSceneGameMode,
}

/// Swapping out of batter mode activates the pitcher camera and locks
/// its cursor; swapping out of pitcher mode does the reverse. Exactly one
/// camera is live afterwards.
pub fn swap_camera(mode: BullpenSceneGameMode) -> (r: CameraSwap)
    ensures
        mode == BullpenSceneGameMode::Batter ==> r == (CameraSwap {
            pitcher_camera_active: true,
            batter_camera_active: false,
            pitcher_cursor_lock: true,
            next_mode: BullpenSceneGameMode::Pitcher,
        }),
        mode == BullpenSceneGameMode::Pitcher ==> r == (CameraSwap {
            pitcher_camera_active: false,
            batter_camera_active: true,
            pitcher_cursor_lock: false,
            next_mode: BullpenSceneGameMode::Batter,
        }),
        r.pitcher_camera_active != r.batter_camera_active,
        r.next_mode != mode,
{
    match mode {
        BullpenSceneGameMode::Batter => CameraSwap {
            pitcher_camera_active: true,
            batter_camera_active: false,
            pitcher_cursor_lock: true,
            next_mode: BullpenSceneGameMode::Pitcher,
        },
        BullpenSceneGameMode::Pitcher => CameraSwap {
            pitcher_camera_active: false,
            batter_camera_active: true,
            pitcher_cursor_lock: false,
            next_mode: BullpenSceneGameMode::Batter,
        },
    }
}

} // verus!
