//! State of the docked control panel and the actions it requests.
//!
//! The panel's widgets are drawn by the rendering code; what is decided here
//! is whether the panel is shown, how much room it takes from the flock, and
//! what the simulation is asked to do in response to the panel.

use vstd::prelude::*;

verus! {

/// Width, in pixels, of the docked control column.
pub const PANEL_WIDTH: u32 = 320;

/// Gap, in pixels, left around the panel between it and the window edges.
pub const PANEL_MARGIN: u32 = 10;

/// Horizontal room, in pixels, that a visible panel takes from the flock.
pub open spec fn visible_panel_room() -> int {
    PANEL_WIDTH + 2 * PANEL_MARGIN
}

/// Persistent state for the control panel between frames.
#[derive(Clone, Copy, Debug, PartialEq, Eq, Structural)]
pub struct ControlPanel {
    /// Whether the panel is currently drawn and accepting input.
    pub visible: bool,
}

/// What the simulation should do in response to this frame's panel input.
///
/// The panel edits the settings directly, but a reset also has to rebuild the
/// flock, which only the simulation can do.
#[derive(Clone, Copy, Debug, PartialEq, Eq, Structural)]
pub struct ControlOutcome {
    /// The user asked to restore default settings.
    pub reset_requested: bool,
    /// The user asked to erase all recorded trails.
    pub clear_trails_requested: bool,
}

impl Default for ControlOutcome {
    /// An outcome that requests nothing.
    fn default() -> (outcome: ControlOutcome)
        ensures
            !outcome.reset_requested,
            !outcome.clear_trails_requested,
    {
        ControlOutcome { reset_requested: false, clear_trails_requested: false }
    }
}

/// The panel after a frame in which the toggle key was or was not pressed.
pub open spec fn after_frame(panel: ControlPanel, toggle_pressed: bool) -> ControlPanel {
    ControlPanel { visible: panel.visible != toggle_pressed }
}

impl ControlPanel {
    /// Creates a control panel that starts visible.
    pub fn new() -> (panel: ControlPanel)
        ensures
            panel.visible,
    {
        ControlPanel { visible: true }
    }

    /// Horizontal space, in whole pixels, the panel reserves at the right of
    /// the window.
    ///
    /// The simulation shrinks its play area by this amount so boids never move
    /// behind the panel. A hidden panel reserves nothing and hands the whole
    /// window back to the flock.
    pub fn reserved_width(&self) -> (width: u32)
        ensures
            self.visible ==> width == visible_panel_room(),
            self.visible ==> width == PANEL_WIDTH + 2 * PANEL_MARGIN,
            !self.visible ==> width == 0,
    {
        if self.visible {
            PANEL_WIDTH + PANEL_MARGIN * 2
        } else {
            0
        }
    }

    /// Handles this frame's toggle key and says whether the panel body is to
    /// be drawn and its edits applied.
    ///
    /// A press flips the panel's visibility; the body is drawn exactly when the
    /// panel is visible after that. When it is not drawn, the frame's outcome
    /// is `ControlOutcome::default()`, which requests nothing.
    pub fn update(&mut self, toggle_pressed: bool) -> (show_body: bool)
        ensures
            *final(self) == after_frame(*old(self), toggle_pressed),
            toggle_pressed ==> final(self).visible == !old(self).visible,
            !toggle_pressed ==> final(self).visible == old(self).visible,
            show_body == final(self).visible,
    {
        if toggle_pressed {
            self.visible = !self.visible;
        }
        self.visible
    }
}

/// A press of the toggle key flips the panel's visibility, two presses leave
/// the panel as it was, and a frame without a press changes nothing.
pub proof fn lemma_toggle_twice_restores(panel: ControlPanel)
    ensures
        after_frame(panel, true).visible == !panel.visible,
        after_frame(after_frame(panel, true), true) == panel,
        after_frame(panel, false) == panel,
{
}

} // verus!
