//! Obstacles: they march left at the world speed and are discarded once
//! they leave the screen.

use vstd::prelude::*;
use crate::config::{DT_MAX_MS, OFF_SCREEN_X, SPAWN_X_MAX, SPEED_MAX, SPEED_SCALE};

verus! {

/// One obstacle; only its horizontal position changes over its lifetime.
#[derive(Clone, Copy, PartialEq, Eq, Structural, Debug)]
pub struct Cactus {
    /// Horizontal position in micro-units.
    pub x: i64,
}

impl Cactus {
    /// Whether the obstacle has scrolled past the off-screen threshold and
    /// should be discarded.
    pub open spec fn off_screen_spec(self) -> bool {
        self.x < OFF_SCREEN_X
    }

    /// The obstacle after one frame of leftward motion at `speed`
    /// milli-units per second over `dt` milliseconds.
    pub open spec fn moved(self, speed: int, dt: int) -> Cactus {
        Cactus { x: (self.x - SPEED_SCALE * speed * dt) as i64 }
    }

    /// A fresh obstacle at the given horizontal position.
    pub fn new(spawn_x: i64) -> (c: Cactus)
        ensures
            c.x == spawn_x,
    {
        Cactus { x: spawn_x }
    }

    /// One frame of motion: the position decreases by the speed scaled by
    /// the frame time and the world speed multiplier.
    pub fn update(&mut self, speed: i64, dt: i64)
        requires
            -SPAWN_X_MAX <= old(self).x <= SPAWN_X_MAX,
            0 <= speed <= SPEED_MAX,
            0 <= dt <= DT_MAX_MS,
        ensures
            *final(self) == old(self).moved(speed as int, dt as int),
            final(self).x == old(self).x - SPEED_SCALE * speed * dt,
    {
        assert(0 <= SPEED_SCALE * speed * dt <= 600_000_000_000) by (nonlinear_arith)
            requires
                0 <= speed <= 1_000_000,
                0 <= dt <= 10_000,
        ;
        self.x = self.x - SPEED_SCALE * speed * dt;
    }

    /// Whether the obstacle is past the off-screen threshold.
    pub fn off_screen(&self) -> (r: bool)
        ensures
            r == self.off_screen_spec(),
    {
        self.x < OFF_SCREEN_X
    }
}

} // verus!
