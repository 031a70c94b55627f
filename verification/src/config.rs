//! Discrete settings of the simulation and their defaults.

use vstd::prelude::*;

verus! {

/// Number of boids created when a simulation starts with default settings.
pub const DEFAULT_BOID_COUNT: usize = 80;

/// Number of past positions kept per boid by default.
pub const DEFAULT_TRAIL_LENGTH: usize = 45;

/// Whether flight paths are drawn by default.
pub const DEFAULT_TRAILS_ENABLED: bool = true;

/// Strategy used when boids approach or cross the window boundary.
#[derive(Clone, Copy, Debug, PartialEq, Eq, Structural)]
pub enum BoundaryMode {
    /// Teleport boids from one side of the screen to the opposite side.
    Wrap,
    /// Steer boids away from edges before they leave the screen.
    AvoidEdges,
}

/// The boundary mode a wrap-around toggle stands for.
pub open spec fn mode_for_wrap(wrap: bool) -> BoundaryMode {
    if wrap {
        BoundaryMode::Wrap
    } else {
        BoundaryMode::AvoidEdges
    }
}

impl BoundaryMode {
    /// Whether the wrap-around toggle is on for this mode.
    pub open spec fn spec_wraps(self) -> bool {
        self is Wrap
    }

    /// The mode selected by a wrap-around toggle: `Wrap` when it is on,
    /// `AvoidEdges` when it is off.
    pub fn from_wrap(wrap: bool) -> (mode: BoundaryMode)
        ensures
            mode == mode_for_wrap(wrap),
            wrap ==> mode == BoundaryMode::Wrap,
            !wrap ==> mode == BoundaryMode::AvoidEdges,
    {
        if wrap {
            BoundaryMode::Wrap
        } else {
            BoundaryMode::AvoidEdges
        }
    }

    /// Whether boids that leave the area reappear on the opposite side.
    pub fn wraps(&self) -> (r: bool)
        ensures
            r == self.spec_wraps(),
            r == (*self is Wrap),
    {
        match self {
            BoundaryMode::Wrap => true,
            BoundaryMode::AvoidEdges => false,
        }
    }

    /// Whether boids steer away from the edges of the area.
    pub fn avoids_edges(&self) -> (r: bool)
        ensures
            r == (*self is AvoidEdges),
            r == !self.spec_wraps(),
    {
        match self {
            BoundaryMode::Wrap => false,
            BoundaryMode::AvoidEdges => true,
        }
    }
}

/// Reading the toggle of a mode and selecting the mode of a toggle undo each
/// other: the toggle shown for the mode selected by `wrap` is `wrap`, and the
/// mode selected by the toggle shown for `mode` is `mode`.
pub proof fn lemma_wrap_toggle_round_trip(wrap: bool, mode: BoundaryMode)
    ensures
        mode_for_wrap(true) == BoundaryMode::Wrap,
        mode_for_wrap(false) == BoundaryMode::AvoidEdges,
        mode_for_wrap(wrap).spec_wraps() == wrap,
        mode_for_wrap(mode.spec_wraps()) == mode,
{
}

impl Default for BoundaryMode {
    /// Edge avoidance is the default boundary behaviour.
    fn default() -> (mode: BoundaryMode)
        ensures
            mode == BoundaryMode::AvoidEdges,
    {
        BoundaryMode::AvoidEdges
    }
}

/// The whole-number and on/off settings of a running simulation.
///
/// These are the settings that decide how much state the simulation holds and
/// which rules run; the continuous tuning values (speeds, forces, radii,
/// colors) are kept with the rendering code.
#[derive(Clone, Copy, Debug, PartialEq, Eq, Structural)]
pub struct Settings {
    /// Number of boids the flock is kept at.
    pub boid_count: usize,
    /// Current boundary behavior.
    pub boundary_mode: BoundaryMode,
    /// Whether boids draw their recent flight path.
    pub trails_enabled: bool,
    /// Number of past positions kept per boid for its trail.
    pub trail_length: usize,
}

/// The default settings.
pub open spec fn default_settings() -> Settings {
    Settings {
        boid_count: DEFAULT_BOID_COUNT,
        boundary_mode: BoundaryMode::AvoidEdges,
        trails_enabled: DEFAULT_TRAILS_ENABLED,
        trail_length: DEFAULT_TRAIL_LENGTH,
    }
}

impl Default for Settings {
    /// Builds the default settings.
    fn default() -> (s: Settings)
        ensures
            s == default_settings(),
            s.boid_count == DEFAULT_BOID_COUNT,
            s.boundary_mode == BoundaryMode::AvoidEdges,
            s.trails_enabled == DEFAULT_TRAILS_ENABLED,
            s.trail_length == DEFAULT_TRAIL_LENGTH,
    {
        Settings {
            boid_count: DEFAULT_BOID_COUNT,
            boundary_mode: BoundaryMode::AvoidEdges,
            trails_enabled: DEFAULT_TRAILS_ENABLED,
            trail_length: DEFAULT_TRAIL_LENGTH,
        }
    }
}

} // verus!
