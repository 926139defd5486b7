//! The player-controlled body: vertical kinematics with gravity, jumps,
//! short hops, and a ground clamp.
//!
//! Positions are micro-units, velocities milli-units per second, frame
//! times milliseconds; screen coordinates grow downward, so jumping makes
//! the velocity negative and the position smaller.

use vstd::prelude::*;
use crate::config::{
    DT_MAX_MS, GRAVITY, GROUND_Y, JUMP_VELOCITY, PHI_FLOOR, SHORT_HOP_VELOCITY, SPEED_SCALE,
};

verus! {

/// The player's body. `on_ground` holds exactly when the body rests on the
/// ground with zero velocity.
#[derive(Clone, Copy, PartialEq, Eq, Structural, Debug)]
pub struct Dino {
    /// Vertical position in micro-units; never exceeds `GROUND_Y`.
    pub y: i64,
    /// Vertical velocity in milli-units per second; negative is upward.
    pub velocity: i64,
    /// Whether the body rests on the ground.
    pub on_ground: bool,
}

impl Dino {
    /// The pose a body has at game start and right after landing.
    pub open spec fn initial() -> Dino {
        Dino { y: GROUND_Y, velocity: 0, on_ground: true }
    }

    /// Discrete energy potential of the body. With the scales chosen here
    /// (micro-unit positions, milli-unit velocities) one integration step
    /// adds exactly `900 * dt * dt` to it, so it never decreases except
    /// when a jump fires, which puts it exactly on `PHI_FLOOR` in the
    /// worst case. That single quantity bounds both fields.
    pub open spec fn phi(self) -> int {
        self.y - self.velocity * self.velocity
    }

    /// Well-formedness: the body never sinks below the ground, its energy
    /// potential stays above the floor a worst-case jump can reach, and a
    /// grounded body rests exactly on the ground.
    pub open spec fn wf(self) -> bool {
        &&& self.y <= GROUND_Y
        &&& self.phi() >= PHI_FLOOR
        &&& self.on_ground ==> self.y == GROUND_Y && self.velocity == 0
    }

    /// Velocity after gravity has acted for `dt` milliseconds.
    pub open spec fn vel_after_gravity(self, dt: int) -> int {
        self.velocity + GRAVITY * dt
    }

    /// Velocity after gravity and a possible jump impulse: a jump input is
    /// effective only while the body is grounded.
    pub open spec fn vel_after_jump(self, jump: bool, dt: int) -> int {
        if jump && self.on_ground {
            JUMP_VELOCITY as int
        } else {
            self.vel_after_gravity(dt)
        }
    }

    /// Velocity after gravity, jump, and the short-hop clamp: releasing the
    /// jump key while ascending faster than `SHORT_HOP_VELOCITY` cuts the
    /// ascent to exactly that velocity.
    pub open spec fn vel_after_release(self, jump: bool, release: bool, dt: int) -> int {
        let v = self.vel_after_jump(jump, dt);
        if release && v < SHORT_HOP_VELOCITY {
            SHORT_HOP_VELOCITY as int
        } else {
            v
        }
    }

    /// Position after integrating the updated velocity over `dt`
    /// milliseconds, before the ground clamp.
    pub open spec fn raw_y(self, jump: bool, release: bool, dt: int) -> int {
        self.y + SPEED_SCALE * self.vel_after_release(jump, release, dt) * dt
    }

    /// Whether one update lands the body: integration would place it at or
    /// below ground level.
    pub open spec fn lands(self, jump: bool, release: bool, dt: int) -> bool {
        self.raw_y(jump, release, dt) >= GROUND_Y
    }

    /// One full update step: gravity, jump impulse, short-hop clamp,
    /// integration, ground clamp — in that order.
    pub open spec fn step(self, jump: bool, release: bool, dt: int) -> Dino {
        if self.lands(jump, release, dt) {
            Dino::initial()
        } else {
            Dino {
                y: self.raw_y(jump, release, dt) as i64,
                velocity: self.vel_after_release(jump, release, dt) as i64,
                on_ground: false,
            }
        }
    }

    /// A well-formed body's fields are small: the energy potential bounds
    /// the squared velocity by `GROUND_Y - PHI_FLOOR`.
    pub proof fn lemma_wf_bounds(self)
        requires
            self.wf(),
        ensures
            -90_000 <= self.velocity <= 90_000,
            PHI_FLOOR <= self.y <= GROUND_Y,
    {
        let v = self.velocity as int;
        assert(v * v >= 0) by (nonlinear_arith);
        assert(-90_000 <= v <= 90_000) by (nonlinear_arith)
            requires
                v * v <= 7_344_000_000,
        ;
    }

    /// In a non-landing step, the intermediate values fit `i64`, so the
    /// casts in `step` do not truncate.
    pub proof fn lemma_step_values(self, jump: bool, release: bool, dt: int)
        requires
            self.wf(),
            0 <= dt <= DT_MAX_MS,
        ensures
            -390_000 <= self.vel_after_release(jump, release, dt) <= 390_000,
            !self.lands(jump, release, dt) ==> {
                &&& self.step(jump, release, dt).velocity == self.vel_after_release(
                    jump,
                    release,
                    dt,
                )
                &&& self.step(jump, release, dt).y == self.raw_y(jump, release, dt)
                &&& !self.step(jump, release, dt).on_ground
            },
    {
        self.lemma_wf_bounds();
        let v3 = self.vel_after_release(jump, release, dt);
        assert(-240_000_000_000 <= SPEED_SCALE * v3 * dt <= 240_000_000_000) by (nonlinear_arith)
            requires
                -390_000 <= v3 <= 390_000,
                0 <= dt <= 10_000,
        ;
    }

    /// One step from a well-formed body yields a well-formed body; in
    /// particular the position never exceeds the ground level.
    pub proof fn lemma_step_wf(self, jump: bool, release: bool, dt: int)
        requires
            self.wf(),
            0 <= dt <= DT_MAX_MS,
        ensures
            self.step(jump, release, dt).wf(),
    {
        self.lemma_wf_bounds();
        self.lemma_step_values(jump, release, dt);
        if !self.lands(jump, release, dt) {
            let y = self.y as int;
            let v = self.velocity as int;
            let v3 = self.vel_after_release(jump, release, dt);
            if jump && self.on_ground {
                // jump impulse from the ground: both possible velocities
                // are constants, so the new potential is linear in dt.
                assert(60 * v3 * dt - v3 * v3 >= -144_000_000 - 720_000 * dt) by (nonlinear_arith)
                    requires
                        v3 == -6_000 || v3 == -12_000,
                        dt >= 0,
                ;
                assert(self.raw_y(jump, release, dt) - v3 * v3 >= PHI_FLOOR);
            } else if release && self.vel_after_gravity(dt) < SHORT_HOP_VELOCITY {
                // short-hop clamp: the clamped-away velocity was large,
                // so the old potential left enough room.
                assert(v * v >= 36_000_000 + 360_000 * dt + 900 * dt * dt) by (nonlinear_arith)
                    requires
                        v + 30 * dt < -6_000,
                        dt >= 0,
                ;
                assert(60 * v3 * dt == -360_000 * dt && v3 * v3 == 36_000_000) by (nonlinear_arith)
                    requires
                        v3 == -6_000,
                ;
                assert(900 * dt * dt >= 0) by (nonlinear_arith);
                assert(self.raw_y(jump, release, dt) - v3 * v3 >= PHI_FLOOR);
            } else {
                // plain gravity and integration: the potential grows by
                // exactly 900 * dt * dt.
                assert(y + 60 * (v + 30 * dt) * dt - (v + 30 * dt) * (v + 30 * dt) == y - v * v
                    + 900 * dt * dt) by (nonlinear_arith);
                assert(900 * dt * dt >= 0) by (nonlinear_arith);
                assert(self.raw_y(jump, release, dt) - v3 * v3 >= PHI_FLOOR);
            }
        }
    }

    /// The body after a whole sequence of update steps, each given as
    /// (jump pressed, jump released, frame time).
    pub open spec fn run(self, steps: Seq<(bool, bool, int)>) -> Dino
        decreases steps.len(),
    {
        if steps.len() == 0 {
            self
        } else {
            self.step(steps[0].0, steps[0].1, steps[0].2).run(steps.drop_first())
        }
    }

    /// Gravity is monotone: a step without a jump input either lands the
    /// body, zeroing its velocity, or strictly increases its velocity.
    pub proof fn lemma_gravity_monotonic(self, release: bool, dt: int)
        requires
            self.wf(),
            0 < dt <= DT_MAX_MS,
        ensures
            self.step(false, release, dt).on_ground ==> self.step(false, release, dt).velocity
                == 0,
            !self.step(false, release, dt).on_ground ==> self.step(false, release, dt).velocity
                > self.velocity,
    {
        self.lemma_step_values(false, release, dt);
    }

    /// The ground clamp holds over every sequence of updates: starting from
    /// a well-formed body, the position never exceeds the ground level.
    pub proof fn lemma_never_below_ground(self, steps: Seq<(bool, bool, int)>)
        requires
            self.wf(),
            forall|i: int| 0 <= i < steps.len() ==> 0 <= (#[trigger] steps[i]).2 <= DT_MAX_MS,
        ensures
            self.run(steps).wf(),
            self.run(steps).y <= GROUND_Y,
        decreases steps.len(),
    {
        if steps.len() > 0 {
            self.lemma_step_wf(steps[0].0, steps[0].1, steps[0].2);
            let rest = steps.drop_first();
            assert(forall|i: int| 0 <= i < rest.len() ==> 0 <= (#[trigger] rest[i]).2 <= DT_MAX_MS);
            self.step(steps[0].0, steps[0].1, steps[0].2).lemma_never_below_ground(rest);
        }
    }

    /// Jump gating: while the body is airborne, a jump input has no effect
    /// at all — in particular it never changes the velocity.
    pub proof fn lemma_jump_gating(self, release: bool, dt: int)
        requires
            !self.on_ground,
        ensures
            self.step(true, release, dt) == self.step(false, release, dt),
    {
    }

    /// Variable jump height: on a frame with the jump key released, the
    /// resulting velocity is never more negative than the short-hop
    /// threshold, and an ascent that was faster is cut to exactly it.
    pub proof fn lemma_short_hop_clamp(self, jump: bool, dt: int)
        requires
            self.wf(),
            0 <= dt <= DT_MAX_MS,
        ensures
            self.step(jump, true, dt).velocity >= SHORT_HOP_VELOCITY,
            self.vel_after_jump(jump, dt) < SHORT_HOP_VELOCITY && !self.lands(jump, true, dt)
                ==> self.step(jump, true, dt).velocity == SHORT_HOP_VELOCITY,
    {
        self.lemma_step_values(jump, true, dt);
    }

    /// A fresh body, resting on the ground.
    pub fn new() -> (d: Dino)
        ensures
            d == Dino::initial(),
            d.wf(),
    {
        Dino { y: GROUND_Y, velocity: 0, on_ground: true }
    }

    /// One frame of kinematics. `jump_pressed` and `jump_released` are the
    /// frame's edge-triggered jump-key transitions, `dt` the frame time in
    /// milliseconds. Applies gravity, then a jump impulse if the body is
    /// grounded, then the short-hop clamp, integrates the position, and
    /// clamps to the ground.
    pub fn update(&mut self, jump_pressed: bool, jump_released: bool, dt: i64)
        requires
            old(self).wf(),
            0 <= dt <= DT_MAX_MS,
        ensures
            *final(self) == old(self).step(jump_pressed, jump_released, dt as int),
            final(self).wf(),
    {
        proof {
            self.lemma_wf_bounds();
            self.lemma_step_values(jump_pressed, jump_released, dt as int);
            self.lemma_step_wf(jump_pressed, jump_released, dt as int);
        }
        let mut v: i64 = self.velocity + GRAVITY * dt;
        if jump_pressed && self.on_ground {
            v = JUMP_VELOCITY;
        }
        if jump_released && v < SHORT_HOP_VELOCITY {
            v = SHORT_HOP_VELOCITY;
        }
        assert(-240_000_000_000 <= SPEED_SCALE * v * dt <= 240_000_000_000) by (nonlinear_arith)
            requires
                -390_000 <= v <= 390_000,
                0 <= dt <= 10_000,
        ;
        let y_new: i64 = self.y + SPEED_SCALE * v * dt;
        if y_new >= GROUND_Y {
            self.y = GROUND_Y;
            self.velocity = 0;
            self.on_ground = true;
        } else {
            self.y = y_new;
            self.velocity = v;
            self.on_ground = false;
        }
    }
}

} // verus!
