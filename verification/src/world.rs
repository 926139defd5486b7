//! The game-flow controller: the whole world state and the per-frame tick
//! that drives score, body, obstacles, spawner, collision, and the
//! Playing / GameOver state machine.

use vstd::prelude::*;
use crate::cactus::Cactus;
use crate::config::{
    DT_MAX_MS, OFF_SCREEN_X, SPAWN_MAX_MS, SPAWN_MIN_MS, SPAWN_X_MAX, SPEED_MAX, SPEED_SCALE,
};
use crate::dino::Dino;
use crate::rect::{cactus_rect, cactus_rect_spec, dino_rect, dino_rect_spec, overlap_spec};
use crate::spawner::Spawner;

verus! {

/// The two top-level game states.
#[derive(Clone, Copy, PartialEq, Eq, Structural, Debug)]
pub enum GameState {
    /// The game is running: score accrues and entities move.
    Playing,
    /// The run has ended; only the restart input is honoured.
    GameOver,
}

/// The edge-triggered inputs sampled once per frame, before the tick runs.
#[derive(Clone, Copy, PartialEq, Eq, Structural, Debug)]
pub struct FrameInput {
    /// The jump key went down this frame.
    pub jump_pressed: bool,
    /// The jump key went up this frame.
    pub jump_released: bool,
    /// The restart key went down this frame.
    pub restart_pressed: bool,
}

/// What a tick asks its audio collaborators to do; rendering reads the
/// world state directly.
#[derive(Clone, Copy, PartialEq, Eq, Structural, Debug)]
pub struct FrameOutput {
    /// Play the jump effect: a jump fired this frame.
    pub play_jump_sound: bool,
    /// Play the collision effect: the run ended this frame.
    pub play_game_over_sound: bool,
    /// The world was reset from GameOver back to Playing this frame.
    pub restarted: bool,
}

impl FrameOutput {
    /// A tick that asks for nothing.
    pub open spec fn silent() -> FrameOutput {
        FrameOutput { play_jump_sound: false, play_game_over_sound: false, restarted: false }
    }
}

/// The obstacles after one frame: each moved left at `speed` over `dt`,
/// and those past the off-screen threshold discarded, in order.
pub open spec fn surviving_seq(cs: Seq<Cactus>, speed: int, dt: int) -> Seq<Cactus>
    decreases cs.len(),
{
    if cs.len() == 0 {
        Seq::empty()
    } else {
        let rest = surviving_seq(cs.drop_last(), speed, dt);
        let m = cs.last().moved(speed, dt);
        if m.off_screen_spec() {
            rest
        } else {
            rest.push(m)
        }
    }
}

/// Retention is exact: an obstacle is among the survivors if and only if
/// it is one of the moved obstacles and has not passed the off-screen
/// threshold.
pub proof fn lemma_survivor_membership(cs: Seq<Cactus>, speed: int, dt: int, c: Cactus)
    ensures
        surviving_seq(cs, speed, dt).contains(c) <==> (!c.off_screen_spec() && exists|i: int|
            0 <= i < cs.len() && (#[trigger] cs[i]).moved(speed, dt) == c),
    decreases cs.len(),
{
    let s = surviving_seq(cs, speed, dt);
    if cs.len() == 0 {
        assert(!s.contains(c));
    } else {
        let prefix = cs.drop_last();
        let rest = surviving_seq(prefix, speed, dt);
        let m = cs.last().moved(speed, dt);
        lemma_survivor_membership(prefix, speed, dt, c);
        assert(forall|i: int| 0 <= i < prefix.len() ==> #[trigger] prefix[i] == cs[i]);
        if s.contains(c) {
            if m.off_screen_spec() || c != m {
                assert(rest.contains(c));
            } else {
                assert(cs[cs.len() - 1].moved(speed, dt) == c);
            }
        }
        if !c.off_screen_spec() && exists|i: int|
            0 <= i < cs.len() && (#[trigger] cs[i]).moved(speed, dt) == c {
            let i = choose|i: int| 0 <= i < cs.len() && (#[trigger] cs[i]).moved(speed, dt) == c;
            if i < cs.len() - 1 {
                assert(prefix[i].moved(speed, dt) == c);
                assert(rest.contains(c));
                if !m.off_screen_spec() {
                    let j = choose|j: int| 0 <= j < rest.len() && rest[j] == c;
                    assert(s[j] == c);
                }
            } else {
                assert(c == m);
                assert(s[s.len() - 1] == c);
            }
        }
    }
}

/// Whether the body's bounding box overlaps any obstacle's bounding box.
pub open spec fn any_collision(d: Dino, cs: Seq<Cactus>) -> bool {
    exists|i: int|
        0 <= i < cs.len() && overlap_spec(dino_rect_spec(d), cactus_rect_spec(#[trigger] cs[i]))
}

/// Saturating addition at the top of `i64`, used by the score.
pub open spec fn sat_add_spec(a: int, b: int) -> int {
    if a + b <= i64::MAX {
        a + b
    } else {
        i64::MAX as int
    }
}

/// The whole game state owned by the frame loop.
#[derive(Debug)]
pub struct GameWorld {
    /// The current flow state.
    pub state: GameState,
    /// The player's body.
    pub dino: Dino,
    /// The active obstacles, in spawn order.
    pub cacti: Vec<Cactus>,
    /// The spawn countdown.
    pub spawner: Spawner,
    /// Survival time in milliseconds; grows while Playing, saturating.
    pub score: i64,
    /// Leftward obstacle speed, in milli-units per second.
    pub speed: i64,
    /// Where new obstacles appear: the world's right edge, in micro-units.
    pub spawn_x: i64,
}

impl GameWorld {
    /// Every active obstacle sits between the off-screen threshold and the
    /// spawn position.
    pub open spec fn cacti_ok(self) -> bool {
        forall|i: int|
            0 <= i < self.cacti@.len() ==> OFF_SCREEN_X <= (#[trigger] self.cacti@[i]).x
                <= self.spawn_x
    }

    /// Well-formedness of the whole world, established by `new` and
    /// preserved by `tick`.
    pub open spec fn wf(self) -> bool {
        &&& self.dino.wf()
        &&& self.spawner.wf()
        &&& self.cacti_ok()
        &&& 0 <= self.score
        &&& 0 <= self.speed <= SPEED_MAX
        &&& 0 <= self.spawn_x <= SPAWN_X_MAX
    }

    /// The obstacle collection a Playing tick leaves behind: survivors of
    /// the frame's motion, plus a fresh obstacle at the spawn position if
    /// the spawn countdown ran out.
    pub open spec fn next_cacti(self, dt: int) -> Seq<Cactus> {
        let s = surviving_seq(self.cacti@, self.speed as int, dt);
        if self.spawner.expires(dt) {
            s.push(Cactus { x: self.spawn_x })
        } else {
            s
        }
    }

    /// A fresh world, Playing, with an immediate first spawn due.
    pub fn new(spawn_x: i64, speed: i64) -> (w: GameWorld)
        requires
            0 <= spawn_x <= SPAWN_X_MAX,
            0 <= speed <= SPEED_MAX,
        ensures
            w.wf(),
            w.state == GameState::Playing,
            w.dino == Dino::initial(),
            w.cacti@ == Seq::<Cactus>::empty(),
            w.spawner.remaining == 0,
            w.score == 0,
            w.spawn_x == spawn_x,
            w.speed == speed,
    {
        GameWorld {
            state: GameState::Playing,
            dino: Dino::new(),
            cacti: Vec::new(),
            spawner: Spawner::new(),
            score: 0,
            speed,
            spawn_x,
        }
    }

    /// One frame of the game. While Playing: the score accrues by `dt`,
    /// the body updates, obstacles move and off-screen ones are discarded,
    /// the spawner may add an obstacle at the spawn position, and a
    /// collision against the post-move positions ends the run. While
    /// GameOver: nothing changes unless restart is pressed, which resets
    /// the whole world. The contract enumerates both states and both
    /// outcomes, so every transition of the state machine is pinned down.
    #[verifier::loop_isolation(false)]
    pub fn tick(&mut self, input: FrameInput, dt: i64) -> (out: FrameOutput)
        requires
            old(self).wf(),
            0 <= dt <= DT_MAX_MS,
        ensures
            final(self).wf(),
            final(self).speed == old(self).speed,
            final(self).spawn_x == old(self).spawn_x,
            old(self).state == GameState::GameOver && !input.restart_pressed ==> *final(self)
                == *old(self) && out == FrameOutput::silent(),
            old(self).state == GameState::GameOver && input.restart_pressed ==> ({
                &&& final(self).state == GameState::Playing
                &&& final(self).dino == Dino::initial()
                &&& final(self).cacti@ == Seq::<Cactus>::empty()
                &&& final(self).spawner.remaining == 0
                &&& final(self).score == 0
                &&& out == (FrameOutput {
                    play_jump_sound: false,
                    play_game_over_sound: false,
                    restarted: true,
                })
            }),
            old(self).state == GameState::Playing ==> ({
                let d1 = old(self).dino.step(input.jump_pressed, input.jump_released, dt as int);
                let cs = old(self).next_cacti(dt as int);
                let collided = any_collision(d1, cs);
                &&& final(self).dino == d1
                &&& final(self).cacti@ == cs
                &&& final(self).score == sat_add_spec(old(self).score as int, dt as int)
                &&& (old(self).spawner.expires(dt as int) ==> SPAWN_MIN_MS
                    <= final(self).spawner.remaining < SPAWN_MAX_MS)
                &&& (!old(self).spawner.expires(dt as int) ==> final(self).spawner.remaining
                    == old(self).spawner.remaining - dt)
                &&& final(self).state == (if collided {
                    GameState::GameOver
                } else {
                    GameState::Playing
                })
                &&& out.play_game_over_sound == collided
                &&& out.play_jump_sound == (input.jump_pressed && old(self).dino.on_ground)
                &&& !out.restarted
            }),
    {
        let ghost w0 = *old(self);
        match self.state {
            GameState::Playing => {
                // score accrues by the frame time, saturating
                if self.score <= i64::MAX - dt {
                    self.score = self.score + dt;
                } else {
                    self.score = i64::MAX;
                }
                let jump_sound = input.jump_pressed && self.dino.on_ground;
                self.dino.update(input.jump_pressed, input.jump_released, dt);
                // move the obstacles, discarding off-screen ones
                let mut kept: Vec<Cactus> = Vec::new();
                let mut i: usize = 0;
                while i < self.cacti.len()
                    invariant
                        i <= self.cacti@.len(),
                        kept@ == surviving_seq(
                            w0.cacti@.take(i as int),
                            w0.speed as int,
                            dt as int,
                        ),
                        forall|j: int|
                            0 <= j < kept@.len() ==> OFF_SCREEN_X <= (#[trigger] kept@[j]).x
                                <= w0.spawn_x,
                    decreases self.cacti@.len() - i,
                {
                    let mut c = self.cacti[i];
                    assert(0 <= SPEED_SCALE * (self.speed as int) * (dt as int)
                        <= 600_000_000_000) by (nonlinear_arith)
                        requires
                            0 <= self.speed <= 1_000_000,
                            0 <= dt <= 10_000,
                    ;
                    c.update(self.speed, dt);
                    proof {
                        let pre = w0.cacti@.take(i as int);
                        let post = w0.cacti@.take(i as int + 1);
                        assert(post.drop_last() =~= pre);
                        assert(post.last() == w0.cacti@[i as int]);
                    }
                    if !c.off_screen() {
                        kept.push(c);
                    }
                    i = i + 1;
                }
                proof {
                    assert(w0.cacti@.take(w0.cacti@.len() as int) =~= w0.cacti@);
                }
                self.cacti = kept;
                // the spawner may add an obstacle at the right edge
                let spawned = self.spawner.tick(dt);
                if spawned {
                    self.cacti.push(Cactus::new(self.spawn_x));
                }
                // collision against post-move, post-spawn positions
                assert(forall|j: int|
                    0 <= j < self.cacti@.len() ==> OFF_SCREEN_X <= (#[trigger] self.cacti@[j]).x
                        <= w0.spawn_x);
                let dr = dino_rect(&self.dino);
                let mut collided = false;
                let mut k: usize = 0;
                while k < self.cacti.len()
                    invariant
                        k <= self.cacti@.len(),
                        collided == any_collision(self.dino, self.cacti@.take(k as int)),
                    decreases self.cacti@.len() - k,
                {
                    let cr = cactus_rect(&self.cacti[k]);
                    let hit = dr.overlaps(&cr);
                    proof {
                        let cs = self.cacti@;
                        assert(cs.take(k as int + 1) =~= cs.take(k as int).push(cs[k as int]));
                        if hit {
                            assert(cs.take(k as int + 1)[k as int] == cs[k as int]);
                        } else if collided {
                            let j = choose|j: int|
                                0 <= j < k && overlap_spec(
                                    dino_rect_spec(self.dino),
                                    cactus_rect_spec(#[trigger] cs.take(k as int)[j]),
                                );
                            assert(cs.take(k as int + 1)[j] == cs.take(k as int)[j]);
                        } else {
                            assert(forall|j: int|
                                0 <= j < k + 1 ==> #[trigger] cs.take(k as int + 1)[j] == cs.take(
                                    k as int,
                                ).push(cs[k as int])[j]);
                        }
                    }
                    if hit {
                        collided = true;
                    }
                    k = k + 1;
                }
                proof {
                    assert(self.cacti@.take(self.cacti@.len() as int) =~= self.cacti@);
                }
                if collided {
                    self.state = GameState::GameOver;
                }
                FrameOutput {
                    play_jump_sound: jump_sound,
                    play_game_over_sound: collided,
                    restarted: false,
                }
            },
            GameState::GameOver => {
                if input.restart_pressed {
                    self.dino = Dino::new();
                    self.cacti = Vec::new();
                    self.spawner = Spawner::new();
                    self.score = 0;
                    self.state = GameState::Playing;
                    FrameOutput {
                        play_jump_sound: false,
                        play_game_over_sound: false,
                        restarted: true,
                    }
                } else {
                    FrameOutput {
                        play_jump_sound: false,
                        play_game_over_sound: false,
                        restarted: false,
                    }
                }
            },
        }
    }
}

} // verus!
