//! Gravity wells: the attractors that the user places on the canvas.

use vstd::prelude::*;

verus! {

/// An attractor: a position, a mass, the angle its sprite is drawn at, and whether the
/// user currently holds it.
///
/// The angle is kept in whole degrees. A well is created at angle 0 and only ever
/// turns by [`ROTATION_SPEED`], so whole degrees lose nothing.
#[derive(Debug, PartialEq)]
pub struct GravityWell<S> {
    pub pos: [S; 2],
    pub rotation_deg: u32,
    pub mass: S,
    pub is_selected: bool,
}

/// Radius of the circle in which a click hits a well, and half the side of the
/// square it is drawn in.
pub const RADIUS: u32 = 20;

/// Degrees by which a well turns in each simulation step.
pub const ROTATION_SPEED: u32 = 2;

/// The angle after one step, wrapped into `[0, 360)`.
pub open spec fn next_rotation(rotation_deg: u32) -> u32 {
    ((rotation_deg + ROTATION_SPEED) % 360) as u32
}

impl<S> GravityWell<S> {
    /// The well one step later: turned, and otherwise the same.
    pub open spec fn rotated(self) -> GravityWell<S> {
        GravityWell { rotation_deg: next_rotation(self.rotation_deg), ..self }
    }

    /// The well at another place.
    pub open spec fn moved_to(self, x: S, y: S) -> GravityWell<S> {
        GravityWell { pos: [x, y], ..self }
    }
}

impl<S: Copy> GravityWell<S> {
    /// A well at `pos`, not turned and not selected.
    pub fn new(pos: [S; 2], mass: S) -> (well: GravityWell<S>)
        ensures
            well == (GravityWell { pos, rotation_deg: 0, mass, is_selected: false }),
    {
        GravityWell { pos, rotation_deg: 0, mass, is_selected: false }
    }

    /// Turns the well by [`ROTATION_SPEED`] degrees.
    pub fn rotate(&mut self)
        ensures
            *final(self) == old(self).rotated(),
            final(self).rotation_deg < 360,
    {
        let turned: u64 = (self.rotation_deg as u64 + ROTATION_SPEED as u64) % 360;
        self.rotation_deg = turned as u32;
    }

    /// Puts the well at `(x, y)`.
    pub fn move_to(&mut self, x: S, y: S)
        ensures
            *final(self) == old(self).moved_to(x, y),
    {
        self.pos = [x, y];
    }
}

} // verus!
