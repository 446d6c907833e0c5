//! Particles and their motion.

use vstd::prelude::*;
use crate::color::Color;

verus! {

/// A point mass: where it is, how fast it moves, and the colour it is drawn in.
///
/// The scalar type `S` of the coordinates is opaque to this crate, which stores and
/// moves coordinates but never calculates with them.
#[derive(Debug, PartialEq)]
pub struct Particle<S> {
    pub pos: [S; 2],
    pub vel: [S; 2],
    pub color: Color,
}

/// The position and velocity of a particle after a time step.
#[derive(Debug, PartialEq)]
pub struct Motion<S> {
    pub pos: [S; 2],
    pub vel: [S; 2],
}

impl<S> Particle<S> {
    /// The particle with its position and velocity replaced; the colour stays.
    pub open spec fn moved(self, motion: Motion<S>) -> Particle<S> {
        Particle { pos: motion.pos, vel: motion.vel, color: self.color }
    }
}

impl<S: Copy> Particle<S> {
    /// A particle at `(pos_x, pos_y)` that moves by `(vel_x, vel_y)`.
    pub fn new(pos_x: S, pos_y: S, vel_x: S, vel_y: S, color: Color) -> (p: Particle<S>)
        ensures
            p == (Particle { pos: [pos_x, pos_y], vel: [vel_x, vel_y], color }),
    {
        Particle { pos: [pos_x, pos_y], vel: [vel_x, vel_y], color }
    }

    /// Replaces position and velocity and keeps the colour.
    pub fn advance(&mut self, motion: &Motion<S>)
        ensures
            *final(self) == old(self).moved(*motion),
    {
        self.pos = motion.pos;
        self.vel = motion.vel;
    }
}

} // verus!
