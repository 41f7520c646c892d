//! The fixed-tick simulation pipeline: paddle movement, ball
//! integration, paddle and wall bounces, out-of-bounds scoring, and the
//! scoreboard refresh, in that order.

use vstd::prelude::*;

use crate::board::{spec_score_line, update_score_board};
use crate::entities::{Ball, Config, ConfigError, Paddle, PaddleInput, Playfield, Side, spec_validate};
use crate::fixed::{
    fx_mul, lemma_fx_mul_quot, lemma_scale_down_bound, lemma_unit_component_bound, spec_fx_mul,
};
use crate::geom::{Aabb, Collision, Vec2, collision_side, spec_collision_side};
use crate::{DT_MAX, FP_ONE, GEOM_MAX, MOVE_MAX, POS_MAX, SPEED_CAP, SPEED_INCREMENT};

verus! {

/// One tick's directional input from a paddle's two bound keys. When
/// both keys are held, "down" wins: it is checked after "up", and the
/// later check overrides the earlier one.
pub open spec fn spec_resolve_input(up_held: bool, down_held: bool) -> PaddleInput {
    if down_held {
        PaddleInput::Down
    } else if up_held {
        PaddleInput::Up
    } else {
        PaddleInput::Idle
    }
}

pub fn resolve_input(up_held: bool, down_held: bool) -> (r: PaddleInput)
    ensures
        r == spec_resolve_input(up_held, down_held),
{
    if down_held {
        PaddleInput::Down
    } else if up_held {
        PaddleInput::Up
    } else {
        PaddleInput::Idle
    }
}

/// How far a paddle or the ball travels in one tick at `speed`
/// (fixed-point units per second) over `dt` (fixed-point seconds).
pub open spec fn spec_step(speed: int, dt: int) -> int {
    spec_fx_mul(speed, dt)
}

/// One tick of paddle movement. The candidate position is
/// `y + speed * dt` toward the input's side; the move is rejected
/// outright — never partially applied — when it would push the paddle's
/// near edge past the playfield's vertical boundary at `height / 2`.
pub open spec fn spec_player_movement(p: Paddle, input: PaddleInput, dt: int, height: int) -> Paddle {
    let step = spec_step(p.speed as int, dt);
    match input {
        PaddleInput::Idle => p,
        PaddleInput::Up => {
            let cand = p.pos.y + step;
            if cand + p.half.y > height / 2 {
                p
            } else {
                Paddle { pos: Vec2 { x: p.pos.x, y: cand as i64 }, ..p }
            }
        },
        PaddleInput::Down => {
            let cand = p.pos.y - step;
            if cand - p.half.y < -(height / 2) {
                p
            } else {
                Paddle { pos: Vec2 { x: p.pos.x, y: cand as i64 }, ..p }
            }
        },
    }
}

pub fn player_movement(p: &mut Paddle, input: PaddleInput, dt: i64, field: &Playfield)
    requires
        old(p).wf(),
        0 <= dt <= DT_MAX,
        field.wf(),
    ensures
        *final(p) == spec_player_movement(*old(p), input, dt as int, field.height as int),
        final(p).wf(),
        final(p).side == old(p).side,
        final(p).score == old(p).score,
{
    proof {
        let sp = p.speed as int;
        let dti = dt as int;
        crate::fixed::lemma_mul_magnitude(sp, dti, GEOM_MAX as int, DT_MAX as int);
        vstd::arithmetic::mul::lemma_mul_nonnegative(sp, dti);
        lemma_fx_mul_quot(sp, dti, GEOM_MAX as int, 1000);
        lemma_scale_down_bound(sp * dti, GEOM_MAX as int * DT_MAX as int);
    }
    let step = fx_mul(p.speed, dt);
    match input {
        PaddleInput::Idle => (),
        PaddleInput::Up => {
            let cand = p.pos.y + step;
            if !(cand + p.half.y > field.height / 2) {
                p.pos.y = cand;
            }
        },
        PaddleInput::Down => {
            let cand = p.pos.y - step;
            if !(cand - p.half.y < -(field.height / 2)) {
                p.pos.y = cand;
            }
        },
    }
}

/// One tick of ball integration:
/// `position += direction * speed * dt`, componentwise in fixed point.
pub open spec fn spec_ball_movement(b: Ball, dt: int) -> Ball {
    Ball {
        pos: Vec2 {
            x: (b.pos.x + spec_step(spec_fx_mul(b.dir.x as int, b.speed as int), dt)) as i64,
            y: (b.pos.y + spec_step(spec_fx_mul(b.dir.y as int, b.speed as int), dt)) as i64,
        },
        ..b
    }
}

pub fn ball_movement(b: &mut Ball, dt: i64)
    requires
        old(b).wf(),
        old(b).pos.bounded(POS_MAX as int),
        0 <= dt <= DT_MAX,
    ensures
        *final(b) == spec_ball_movement(*old(b), dt as int),
        final(b).wf(),
        final(b).pos.bounded(POS_MAX + MOVE_MAX),
{
    proof {
        let dx = b.dir.x as int;
        let dy = b.dir.y as int;
        let sp = b.speed as int;
        lemma_unit_component_bound(dx, dy);
        crate::fixed::lemma_mul_magnitude(dx, sp, FP_ONE as int, SPEED_CAP as int);
        crate::fixed::lemma_mul_magnitude(dy, sp, FP_ONE as int, SPEED_CAP as int);
        lemma_fx_mul_quot(dx, sp, FP_ONE as int, 1_000_000);
        lemma_fx_mul_quot(dy, sp, FP_ONE as int, 1_000_000);
    }
    let vx = fx_mul(b.dir.x, b.speed);
    let vy = fx_mul(b.dir.y, b.speed);
    proof {
        let dti = dt as int;
        crate::fixed::lemma_mul_magnitude(vx as int, dti, SPEED_CAP as int, DT_MAX as int);
        crate::fixed::lemma_mul_magnitude(vy as int, dti, SPEED_CAP as int, DT_MAX as int);
        lemma_fx_mul_quot(vx as int, dti, SPEED_CAP as int, 1000);
        lemma_fx_mul_quot(vy as int, dti, SPEED_CAP as int, 1000);
    }
    let sx = fx_mul(vx, dt);
    let sy = fx_mul(vy, dt);
    b.pos.x = b.pos.x + sx;
    b.pos.y = b.pos.y + sy;
}

/// The ball with its horizontal direction reversed.
pub open spec fn spec_flip_x(b: Ball) -> Ball {
    Ball { dir: Vec2 { x: (-b.dir.x) as i64, y: b.dir.y }, ..b }
}

/// The ball with its vertical direction reversed.
pub open spec fn spec_flip_y(b: Ball) -> Ball {
    Ball { dir: Vec2 { x: b.dir.x, y: (-b.dir.y) as i64 }, ..b }
}

/// Flipping the sign of one component leaves a vector's squared length
/// unchanged, so a direction-flip bounce keeps a unit direction unit.
pub proof fn lemma_flip_preserves_length(x: int, y: int)
    ensures
        (-x) * (-x) + y * y == x * x + y * y,
        x * x + (-y) * (-y) == x * x + y * y,
{
    assert((-x) * (-x) == x * x) by (nonlinear_arith);
    assert((-y) * (-y) == y * y) by (nonlinear_arith);
}

/// The ball's speed after a paddle hit: raised by `SPEED_INCREMENT`,
/// saturating at `SPEED_CAP`.
pub open spec fn spec_speed_up(s: int) -> int {
    if s + SPEED_INCREMENT > SPEED_CAP {
        SPEED_CAP as int
    } else {
        s + SPEED_INCREMENT
    }
}

/// The ball after one paddle check: unchanged when the boxes do not
/// intersect; otherwise the direction component on the struck axis flips
/// and the speed ramps up.
pub open spec fn spec_bounce_off_paddle(b: Ball, paddle_box: Aabb) -> Ball {
    match spec_collision_side(b.spec_aabb(), paddle_box) {
        None => b,
        Some(Collision::LeftRight) => Ball {
            speed: spec_speed_up(b.speed as int) as i64,
            ..spec_flip_x(b)
        },
        Some(Collision::TopBottom) => Ball {
            speed: spec_speed_up(b.speed as int) as i64,
            ..spec_flip_y(b)
        },
    }
}

fn bounce_off_paddle(b: &mut Ball, paddle: &Paddle)
    requires
        old(b).wf(),
        old(b).pos.bounded(POS_MAX + MOVE_MAX),
        paddle.wf(),
    ensures
        *final(b) == spec_bounce_off_paddle(*old(b), paddle.spec_aabb()),
        final(b).wf(),
        final(b).pos == old(b).pos,
        final(b).half == old(b).half,
{
    proof {
        lemma_unit_component_bound(b.dir.x as int, b.dir.y as int);
        lemma_flip_preserves_length(b.dir.x as int, b.dir.y as int);
    }
    let ball_box = b.aabb();
    let paddle_box = paddle.aabb();
    match collision_side(&ball_box, &paddle_box) {
        None => (),
        Some(Collision::LeftRight) => {
            b.dir.x = -b.dir.x;
            b.speed = speed_up(b.speed);
        },
        Some(Collision::TopBottom) => {
            b.dir.y = -b.dir.y;
            b.speed = speed_up(b.speed);
        },
    }
}

fn speed_up(s: i64) -> (r: i64)
    requires
        0 < s <= SPEED_CAP,
    ensures
        r == spec_speed_up(s as int),
{
    if s + SPEED_INCREMENT > SPEED_CAP {
        SPEED_CAP
    } else {
        s + SPEED_INCREMENT
    }
}

/// One tick of ball-paddle collision: each paddle is checked
/// independently, the left paddle first; if the ball overlaps both in
/// one tick, both responses apply in sequence.
pub open spec fn spec_ball_player_bounce(b: Ball, left_box: Aabb, right_box: Aabb) -> Ball {
    spec_bounce_off_paddle(spec_bounce_off_paddle(b, left_box), right_box)
}

pub fn ball_player_bounce(b: &mut Ball, left: &Paddle, right: &Paddle)
    requires
        old(b).wf(),
        old(b).pos.bounded(POS_MAX + MOVE_MAX),
        left.wf(),
        right.wf(),
    ensures
        *final(b) == spec_ball_player_bounce(*old(b), left.spec_aabb(), right.spec_aabb()),
        final(b).wf(),
        final(b).pos == old(b).pos,
{
    bounce_off_paddle(b, left);
    bounce_off_paddle(b, right);
}

/// One tick of wall collision: when the ball's top edge pokes past the
/// top boundary its vertical direction flips, and likewise at the
/// bottom; the position is not corrected, so a fast ball may tunnel.
pub open spec fn spec_ball_wall_bounce(b: Ball, height: int) -> Ball {
    let top = if b.pos.y + b.half.y > height / 2 {
        spec_flip_y(b)
    } else {
        b
    };
    if top.pos.y - top.half.y < -(height / 2) {
        spec_flip_y(top)
    } else {
        top
    }
}

pub fn ball_wall_bounce(b: &mut Ball, field: &Playfield)
    requires
        old(b).wf(),
        old(b).pos.bounded(POS_MAX + MOVE_MAX),
        field.wf(),
    ensures
        *final(b) == spec_ball_wall_bounce(*old(b), field.height as int),
        final(b).wf(),
        final(b).pos == old(b).pos,
{
    proof {
        lemma_unit_component_bound(b.dir.x as int, b.dir.y as int);
        lemma_flip_preserves_length(b.dir.x as int, b.dir.y as int);
    }
    if b.pos.y + b.half.y > field.height / 2 {
        b.dir.y = -b.dir.y;
    }
    proof {
        lemma_unit_component_bound(b.dir.x as int, b.dir.y as int);
        lemma_flip_preserves_length(b.dir.x as int, b.dir.y as int);
    }
    if b.pos.y - b.half.y < -(field.height / 2) {
        b.dir.y = -b.dir.y;
    }
}

/// A paddle credited with one point; the count saturates at `u32::MAX`
/// rather than wrap (unreachable in play).
pub open spec fn spec_bump_score(p: Paddle) -> Paddle {
    if p.score < u32::MAX {
        Paddle { score: (p.score + 1) as u32, ..p }
    } else {
        p
    }
}

/// The ball repositioned to the field center with its speed back at the
/// session's base speed; the direction is left unchanged.
pub open spec fn spec_reset_ball(b: Ball, base_speed: i64) -> Ball {
    Ball { pos: Vec2 { x: 0 as i64, y: 0 as i64 }, speed: base_speed, ..b }
}

/// One tick of out-of-bounds scoring: a ball center past the right edge
/// scores for the left side and resets the ball, checked before the
/// symmetric left-edge case, as `(ball, left, right)` after both checks.
pub open spec fn spec_ball_out(b: Ball, left: Paddle, right: Paddle, width: int, base_speed: i64) -> (
    Ball,
    Paddle,
    Paddle,
) {
    let right_exit = b.pos.x > width / 2;
    let b1 = if right_exit {
        spec_reset_ball(b, base_speed)
    } else {
        b
    };
    let l1 = if right_exit {
        spec_bump_score(left)
    } else {
        left
    };
    let left_exit = b1.pos.x < -(width / 2);
    let b2 = if left_exit {
        spec_reset_ball(b1, base_speed)
    } else {
        b1
    };
    let r1 = if left_exit {
        spec_bump_score(right)
    } else {
        right
    };
    (b2, l1, r1)
}

pub fn ball_out(b: &mut Ball, left: &mut Paddle, right: &mut Paddle, field: &Playfield, base_speed: i64)
    requires
        old(b).wf(),
        old(b).pos.bounded(POS_MAX + MOVE_MAX),
        old(left).wf(),
        old(right).wf(),
        field.wf(),
        0 < base_speed <= SPEED_CAP,
    ensures
        (*final(b), *final(left), *final(right)) == spec_ball_out(
            *old(b),
            *old(left),
            *old(right),
            field.width as int,
            base_speed,
        ),
        final(b).wf(),
        final(b).pos.bounded(POS_MAX + MOVE_MAX),
        final(left).wf(),
        final(right).wf(),
        final(left).side == old(left).side,
        final(right).side == old(right).side,
{
    if b.pos.x > field.width / 2 {
        b.pos = Vec2 { x: 0, y: 0 };
        b.speed = base_speed;
        if left.score < u32::MAX {
            left.score = left.score + 1;
        }
    }
    if b.pos.x < -(field.width / 2) {
        b.pos = Vec2 { x: 0, y: 0 };
        b.speed = base_speed;
        if right.score < u32::MAX {
            right.score = right.score + 1;
        }
    }
}

/// Boundary clamp: a paddle resting exactly at the top boundary
/// (`y == height / 2`) does not move at all on "up" input, while "down"
/// input does move it — by the full step — whenever that downward step
/// keeps its bottom edge inside the field.
pub proof fn lemma_paddle_boundary_clamp(p: Paddle, dt: int, height: int)
    requires
        p.wf(),
        0 <= height,
        p.pos.y == height / 2,
        0 < spec_step(p.speed as int, dt),
        spec_step(p.speed as int, dt) + p.half.y <= height / 2 + height / 2,
    ensures
        spec_player_movement(p, PaddleInput::Up, dt, height) == p,
        spec_player_movement(p, PaddleInput::Down, dt, height).pos.y == p.pos.y - spec_step(
            p.speed as int,
            dt,
        ),
        spec_player_movement(p, PaddleInput::Down, dt, height).pos.y != p.pos.y,
{
}

/// Scoring resets the ball's state: with the ball past the right edge,
/// one scoring pass puts the ball back at the field center at the base
/// speed with its direction kept, credits the left paddle with exactly
/// one point, and leaves the right paddle untouched.
pub proof fn lemma_scoring_resets_ball(
    b: Ball,
    left: Paddle,
    right: Paddle,
    width: int,
    base_speed: i64,
)
    requires
        0 <= width,
        b.pos.x > width / 2,
        left.score < u32::MAX,
    ensures
        ({
            let out = spec_ball_out(b, left, right, width, base_speed);
            &&& out.0.pos == (Vec2 { x: 0 as i64, y: 0 as i64 })
            &&& out.0.speed == base_speed
            &&& out.0.dir == b.dir
            &&& out.1.score == left.score + 1
            &&& out.2 == right
        }),
{
}

/// A whole game session: the two paddles, the ball, and the speed the
/// ball returns to after a scoring reset. The session owns this state
/// exclusively; the presentation layer only reads it for display.
#[derive(Clone, Debug, PartialEq, Eq, Structural)]
pub struct Session {
    pub left: Paddle,
    pub right: Paddle,
    pub ball: Ball,
    pub base_speed: i64,
}

/// The session a valid configuration starts: paddles centered
/// vertically at `x = -paddle_offset` and `x = paddle_offset` with zero
/// score, and the ball at the field center moving along the configured
/// direction at the base speed.
pub open spec fn spec_new_session(cfg: Config) -> Session {
    Session {
        left: Paddle {
            side: Side::Left,
            speed: cfg.paddle_speed,
            score: 0 as u32,
            half: cfg.paddle_half,
            pos: Vec2 { x: (-cfg.paddle_offset) as i64, y: 0 as i64 },
        },
        right: Paddle {
            side: Side::Right,
            speed: cfg.paddle_speed,
            score: 0 as u32,
            half: cfg.paddle_half,
            pos: Vec2 { x: cfg.paddle_offset, y: 0 as i64 },
        },
        ball: Ball {
            pos: Vec2 { x: 0 as i64, y: 0 as i64 },
            dir: cfg.initial_dir,
            speed: cfg.base_speed,
            half: cfg.ball_half,
        },
        base_speed: cfg.base_speed,
    }
}

/// One whole simulation tick, phases in their fixed order.
pub open spec fn spec_tick(
    s: Session,
    left_input: PaddleInput,
    right_input: PaddleInput,
    dt: int,
    field: Playfield,
) -> Session {
    let left1 = spec_player_movement(s.left, left_input, dt, field.height as int);
    let right1 = spec_player_movement(s.right, right_input, dt, field.height as int);
    let ball1 = spec_ball_movement(s.ball, dt);
    let ball2 = spec_ball_player_bounce(ball1, left1.spec_aabb(), right1.spec_aabb());
    let ball3 = spec_ball_wall_bounce(ball2, field.height as int);
    let out = spec_ball_out(ball3, left1, right1, field.width as int, s.base_speed);
    Session { left: out.1, right: out.2, ball: out.0, base_speed: s.base_speed }
}

impl Session {
    /// Structural invariant every session satisfies between ticks.
    pub open spec fn wf(self) -> bool {
        &&& self.left.side == Side::Left
        &&& self.right.side == Side::Right
        &&& self.left.wf()
        &&& self.right.wf()
        &&& self.ball.wf()
        &&& 0 < self.base_speed <= SPEED_CAP
    }

    /// The ball sits within the position range a tick accepts.
    pub open spec fn positions_ok(self) -> bool {
        self.ball.pos.bounded(POS_MAX as int)
    }

    /// Builds the starting session for `cfg`, or reports the first
    /// configuration fault.
    pub fn new(cfg: &Config) -> (r: Result<Session, ConfigError>)
        ensures
            spec_validate(*cfg) is None ==> r == Result::<Session, ConfigError>::Ok(
                spec_new_session(*cfg),
            ),
            spec_validate(*cfg) matches Some(e) ==> r == Result::<Session, ConfigError>::Err(e),
            r matches Ok(s) ==> s.wf() && s.positions_ok(),
    {
        match cfg.validate() {
            Some(e) => Err(e),
            None => Ok(
                Session {
                    left: Paddle {
                        side: Side::Left,
                        speed: cfg.paddle_speed,
                        score: 0,
                        half: cfg.paddle_half,
                        pos: Vec2 { x: -cfg.paddle_offset, y: 0 },
                    },
                    right: Paddle {
                        side: Side::Right,
                        speed: cfg.paddle_speed,
                        score: 0,
                        half: cfg.paddle_half,
                        pos: Vec2 { x: cfg.paddle_offset, y: 0 },
                    },
                    ball: Ball {
                        pos: Vec2 { x: 0, y: 0 },
                        dir: cfg.initial_dir,
                        speed: cfg.base_speed,
                        half: cfg.ball_half,
                    },
                    base_speed: cfg.base_speed,
                },
            ),
        }
    }

    /// Advances the simulation by one fixed tick of `dt` fixed-point
    /// seconds under the given per-paddle inputs and current playfield
    /// bounds, and returns the refreshed scoreboard string.
    pub fn tick(
        &mut self,
        left_input: PaddleInput,
        right_input: PaddleInput,
        dt: i64,
        field: &Playfield,
    ) -> (board: String)
        requires
            old(self).wf(),
            old(self).positions_ok(),
            0 <= dt <= DT_MAX,
            field.wf(),
        ensures
            *final(self) == spec_tick(*old(self), left_input, right_input, dt as int, *field),
            final(self).wf(),
            final(self).ball.pos.bounded(POS_MAX + MOVE_MAX),
            final(self).left.score >= old(self).left.score,
            final(self).right.score >= old(self).right.score,
            final(self).base_speed == old(self).base_speed,
            board@ == spec_score_line(final(self).left.score, final(self).right.score),
    {
        let base_speed = self.base_speed;
        player_movement(&mut self.left, left_input, dt, field);
        player_movement(&mut self.right, right_input, dt, field);
        ball_movement(&mut self.ball, dt);
        ball_player_bounce(&mut self.ball, &self.left, &self.right);
        ball_wall_bounce(&mut self.ball, field);
        ball_out(&mut self.ball, &mut self.left, &mut self.right, field, base_speed);
        update_score_board(self.left.score, self.right.score)
    }

    /// The scoreboard string for the current scores.
    pub fn score_board(&self) -> (s: String)
        ensures
            s@ == spec_score_line(self.left.score, self.right.score),
    {
        update_score_board(self.left.score, self.right.score)
    }
}

/// The boundary clamp seen over a whole tick: with the left paddle
/// resting at `y = height / 2`, a tick under "up" input leaves its
/// position unchanged, while the same tick under "down" input moves it
/// by the full step (whenever that downward step fits the field).
pub proof fn lemma_tick_clamps_paddle_at_boundary(
    s: Session,
    right_input: PaddleInput,
    dt: int,
    field: Playfield,
)
    requires
        s.wf(),
        field.wf(),
        s.left.pos.y == field.height as int / 2,
        0 < spec_step(s.left.speed as int, dt),
        spec_step(s.left.speed as int, dt) + s.left.half.y <= field.height as int / 2
            + field.height as int / 2,
    ensures
        spec_tick(s, PaddleInput::Up, right_input, dt, field).left.pos == s.left.pos,
        spec_tick(s, PaddleInput::Down, right_input, dt, field).left.pos.y == s.left.pos.y
            - spec_step(s.left.speed as int, dt),
{
    lemma_paddle_boundary_clamp(s.left, dt, field.height as int);
}

} // verus!
