//! Whether the editor is drawn in dark mode. The mode follows the system
//! setting, read once, on first use.

use vstd::prelude::*;

verus! {

/// The dark mode flag and whether it has been taken from the system yet.
pub struct DarkModeState {
    pub enabled: bool,
    pub initialized: bool,
}

impl DarkModeState {
    /// Light mode, not yet taken from the system.
    pub fn new() -> (r: DarkModeState)
        ensures
            !r.enabled,
            !r.initialized,
    {
        DarkModeState { enabled: false, initialized: false }
    }
}

impl Default for DarkModeState {
    fn default() -> (r: DarkModeState)
        ensures
            !r.enabled,
            !r.initialized,
    {
        DarkModeState::new()
    }
}

/// The state after taking the system setting `system_dark`: only the first
/// time counts.
pub open spec fn after_init(s: DarkModeState, system_dark: bool) -> DarkModeState {
    if s.initialized {
        s
    } else {
        DarkModeState { enabled: system_dark, initialized: true }
    }
}

/// Takes the dark mode flag from the system setting `system_dark`, unless it
/// was taken already.
pub fn init_dark_mode(state: &mut DarkModeState, system_dark: bool)
    ensures
        *final(state) == after_init(*old(state), system_dark),
{
    if !state.initialized {
        state.enabled = system_dark;
        state.initialized = true;
    }
}

/// Whether to draw in dark mode, taking the system setting `system_dark`
/// first if this is the first use.
pub fn should_use_dark_mode(state: &mut DarkModeState, system_dark: bool) -> (r: bool)
    ensures
        *final(state) == after_init(*old(state), system_dark),
        r == final(state).enabled,
{
    init_dark_mode(state, system_dark);
    state.enabled
}

} // verus!
