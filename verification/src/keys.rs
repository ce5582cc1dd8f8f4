//! Shared Esc vs O panel semantics for pixel, web, and TUI.
//!
//! Frontends call [`apply_panel_key`] instead of inlining `set_screen` /
//! `toggle_fire_panel` so the three UIs cannot drift.
use vstd::prelude::*;

use crate::state::{AppModel, AppState, Screen};

verus! {

/// Operator keys that switch between Options and the firing panel.
#[derive(Debug, Clone, Copy, PartialEq, Eq, Structural)]
pub enum PanelKey {
    /// Letter O — always open Options (stays on Options if already there).
    OpenOptions,
    /// Escape — toggle Fire ↔ Options via [`AppState::toggle_fire_panel`].
    ToggleFirePanel,
}

/// The demo stops, then O shows Options and Esc toggles the firing panel.
pub open spec fn spec_apply_panel_key(m: AppModel, key: PanelKey) -> AppModel {
    let m1 = m.stop_demo();
    match key {
        PanelKey::OpenOptions => m1.set_screen(Screen::Options),
        PanelKey::ToggleFirePanel => m1.toggle_fire_panel(),
    }
}

/// Stop demo and apply Esc vs O. Callers should skip POST before this.
pub fn apply_panel_key(state: &mut AppState, key: PanelKey)
    requires
        old(state)@.ready(3),
    ensures
        final(state)@ == spec_apply_panel_key(old(state)@, key),
        final(state)@.wf(),
{
    state.stop_demo();
    match key {
        PanelKey::OpenOptions => state.set_screen(Screen::Options),
        PanelKey::ToggleFirePanel => state.toggle_fire_panel(),
    }
}

/// O always stops the demo and ends on Options; away from POST, Esc stops the
/// demo and flips between Options and the firing panel.
pub proof fn lemma_panel_keys(m: AppModel, key: PanelKey)
    requires
        m.wf(),
    ensures
        (key == PanelKey::OpenOptions || m.screen != Screen::Boot) ==> !spec_apply_panel_key(m, key).demo.active,
        spec_apply_panel_key(m, PanelKey::OpenOptions).screen == Screen::Options,
        m.screen == Screen::Options ==> spec_apply_panel_key(m, PanelKey::ToggleFirePanel).screen
            == Screen::Fire,
        m.screen == Screen::Fire ==> spec_apply_panel_key(m, PanelKey::ToggleFirePanel).screen
            == Screen::Options,
{
}

} // verus!
