//! Paddle controller: turns the step's directional input into the paddle's
//! next kinematic target, clamped to the playfield.
//!
//! Each step the net direction is read from the left/right key states, a
//! displacement of one speed magnitude is added to the paddle's current
//! physics position, and the horizontal coordinate is clamped to the range
//! the playfield and paddle widths allow.  The vertical position is never
//! modified, and no state is kept between steps beyond the body's position.

use crate::model::{Body, EntityData};
use crate::session::{GameView, Session};
use vstd::prelude::*;

verus! {

broadcast use vstd::std_specs::hash::group_hash_axioms;

/// Clamps a coordinate to `[-half, half]`.
pub open spec fn clamp(x: int, half: int) -> int {
    if x < -half {
        -half
    } else if x > half {
        half
    } else {
        x
    }
}

/// Net direction of mutually cancelling left/right inputs: -1, 0 or +1.
pub open spec fn net_direction(left: bool, right: bool) -> int {
    (if right {
        1int
    } else {
        0int
    }) - (if left {
        1int
    } else {
        0int
    })
}

/// One controller step: one speed-magnitude displacement in the net
/// direction, then the clamp.
pub open spec fn paddle_step(x: int, left: bool, right: bool, speed: int, half: int) -> int {
    clamp(x + net_direction(left, right) * speed, half)
}

/// Computes the paddle's next horizontal coordinate from its current one, in
/// micro-units.  The result never leaves `[-half, half]`, and equals the
/// unclamped displacement whenever that already lies within the range.
pub fn step_paddle(x: i64, left: bool, right: bool, speed: i64, half: i64) -> (r: i64)
    requires
        0 <= half,
    ensures
        r == paddle_step(x as int, left, right, speed as int, half as int),
        -half <= r <= half,
        -half <= x + net_direction(left, right) * speed <= half ==> r == x + net_direction(
            left,
            right,
        ) * speed,
        !left && !right && -half <= x <= half ==> r == x,
{
    let delta: i128 = if right && !left {
        speed as i128
    } else if left && !right {
        -(speed as i128)
    } else {
        0
    };
    proof {
        let d = net_direction(left, right);
        assert(d == 1 ==> d * (speed as int) == speed as int) by (nonlinear_arith);
        assert(d == -1 ==> d * (speed as int) == -(speed as int)) by (nonlinear_arith);
        assert(d == 0 ==> d * (speed as int) == 0) by (nonlinear_arith);
    }
    let wide: i128 = x as i128 + delta;
    let lo: i128 = -(half as i128);
    let hi: i128 = half as i128;
    let clamped: i128 = if wide < lo {
        lo
    } else if wide > hi {
        hi
    } else {
        wide
    };
    clamped as i64
}

/// What one controller step does to the model: when the session's paddle
/// identifier names a live paddle entity with a live body, that body's
/// horizontal position advances by one clamped step; in every other case
/// nothing changes.
pub open spec fn paddle_view(
    g: GameView,
    paddle_id: Option<u64>,
    half: int,
    left: bool,
    right: bool,
) -> GameView {
    match paddle_id {
        Some(pid) => if g.entities.dom().contains(pid) {
            let e = g.entities[pid];
            match (e.data, e.body) {
                (EntityData::Paddle { speed }, Some(bh)) => if g.bodies.dom().contains(bh) {
                    let b = g.bodies[bh];
                    GameView {
                        entities: g.entities,
                        colliders: g.colliders,
                        bodies: g.bodies.insert(
                            bh,
                            Body {
                                mobility: b.mobility,
                                x: paddle_step(b.x as int, left, right, speed as int, half) as i64,
                                y: b.y,
                                vx: b.vx,
                                vy: b.vy,
                            },
                        ),
                        score: g.score,
                        next_id: g.next_id,
                        next_handle: g.next_handle,
                    }
                } else {
                    g
                },
                _ => g,
            }
        } else {
            g
        },
        None => g,
    }
}

impl Session {
    /// Advances the paddle's kinematic body by one input step: reads the
    /// paddle's current physics position, adds one speed-magnitude
    /// displacement in the net direction of the pressed keys, clamps the
    /// horizontal coordinate to the session's half-range, and commits the
    /// result as the body's next kinematic target.
    pub fn control_paddle(&mut self, left: bool, right: bool)
        requires
            old(self).wf(),
        ensures
            final(self).wf(),
            final(self)@ == paddle_view(
                old(self)@,
                old(self).paddle_id,
                old(self).half_range as int,
                left,
                right,
            ),
            final(self).score == old(self).score,
            final(self).paddle_id == old(self).paddle_id,
            final(self).half_range == old(self).half_range,
            final(self).config == old(self).config,
    {
        let pid = match self.paddle_id {
            Some(pid) => pid,
            None => {
                return ;
            },
        };
        let e = match self.entities.get(&pid) {
            Some(e) => *e,
            None => {
                return ;
            },
        };
        let speed = match e.data {
            EntityData::Paddle { speed } => speed,
            _ => {
                return ;
            },
        };
        let bh = match e.body {
            Some(bh) => bh,
            None => {
                return ;
            },
        };
        let b = match self.bodies.get(&bh) {
            Some(b) => *b,
            None => {
                return ;
            },
        };
        proof {
            assert(crate::session::wf_entity(self@, pid));
        }
        let nx = step_paddle(b.x, left, right, speed, self.half_range);
        let ghost g0 = self@;
        self.bodies.insert(bh, Body { mobility: b.mobility, x: nx, y: b.y, vx: b.vx, vy: b.vy });
        proof {
            assert(self@.bodies.dom() =~= g0.bodies.dom());
            assert(self@.bodies.dom().len() == g0.bodies.dom().len());
        }
    }
}

/// The run of a whole input sequence, first step first.
pub open spec fn paddle_run(x: int, inputs: Seq<(bool, bool)>, speed: int, half: int) -> int
    decreases inputs.len(),
{
    if inputs.len() == 0 {
        x
    } else {
        paddle_step(
            paddle_run(x, inputs.drop_last(), speed, half),
            inputs.last().0,
            inputs.last().1,
            speed,
            half,
        )
    }
}

/// Paddle clamp law: for any sequence of directional inputs, the paddle's
/// horizontal coordinate never leaves `[-half, half]`.
pub proof fn lemma_paddle_stays_clamped(x: int, inputs: Seq<(bool, bool)>, speed: int, half: int)
    requires
        0 <= half,
        -half <= x <= half,
    ensures
        -half <= paddle_run(x, inputs, speed, half) <= half,
    decreases inputs.len(),
{
    if inputs.len() > 0 {
        lemma_paddle_stays_clamped(x, inputs.drop_last(), speed, half);
    }
}

} // verus!
