//! The obstacle spawner: a countdown that, on expiry, asks for a new
//! obstacle and rearms itself with a randomly drawn interval.

use vstd::prelude::*;
use crate::config::{DT_MAX_MS, SPAWN_MAX_MS, SPAWN_MIN_MS};

verus! {

/// Relies on `rand::thread_rng` and `rand::Rng::gen_range`: for an integer
/// type, `gen_range(min..max)` returns a value drawn uniformly from the
/// half-open range `[min, max)`, and panics only when the range is empty,
/// which the precondition rules out.
#[verifier::external_body]
fn draw_interval(min: i64, max: i64) -> (r: i64)
    requires
        min < max,
    ensures
        min <= r < max,
{
    let mut rng = rand::thread_rng();
    rand::Rng::gen_range(&mut rng, min..max)
}

/// The spawn countdown, in milliseconds. It starts at zero, so the first
/// tick of a fresh game spawns immediately.
#[derive(Clone, Copy, PartialEq, Eq, Structural, Debug)]
pub struct Spawner {
    /// Milliseconds left until the next spawn.
    pub remaining: i64,
}

impl Spawner {
    /// The countdown stays within one full spawn interval.
    pub open spec fn wf(self) -> bool {
        0 <= self.remaining < SPAWN_MAX_MS
    }

    /// Whether a tick of `dt` milliseconds runs the countdown out.
    pub open spec fn expires(self, dt: int) -> bool {
        self.remaining - dt <= 0
    }

    /// A fresh countdown, due immediately.
    pub fn new() -> (s: Spawner)
        ensures
            s.remaining == 0,
            s.wf(),
    {
        Spawner { remaining: 0 }
    }

    /// Advances the countdown by `dt` milliseconds. Returns whether an
    /// obstacle should spawn this frame; if so, the countdown has been
    /// rearmed with a value drawn from `[SPAWN_MIN_MS, SPAWN_MAX_MS)`.
    pub fn tick(&mut self, dt: i64) -> (spawned: bool)
        requires
            old(self).wf(),
            0 <= dt <= DT_MAX_MS,
        ensures
            final(self).wf(),
            spawned == old(self).expires(dt as int),
            spawned ==> SPAWN_MIN_MS <= final(self).remaining < SPAWN_MAX_MS,
            !spawned ==> final(self).remaining == old(self).remaining - dt,
    {
        if self.remaining - dt <= 0 {
            self.remaining = draw_interval(SPAWN_MIN_MS, SPAWN_MAX_MS);
            true
        } else {
            self.remaining = self.remaining - dt;
            false
        }
    }
}

} // verus!
