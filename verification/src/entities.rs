//! Value objects of the simulation: paddles, the ball, the playfield
//! bounds, and the session configuration with its startup validation.

use vstd::prelude::*;

use crate::geom::{Aabb, Vec2};
use crate::{FP_ONE, GEOM_MAX, POS_MAX, SPEED_CAP};

verus! {

/// Which player a paddle belongs to. The left paddle guards the negative
/// x edge, the right paddle the positive one.
#[derive(Clone, Copy, Debug, PartialEq, Eq, Structural)]
pub enum Side {
    Left,
    Right,
}

/// A paddle's directional input for one tick.
#[derive(Clone, Copy, Debug, PartialEq, Eq, Structural)]
pub enum PaddleInput {
    Up,
    Down,
    Idle,
}

/// A vertically moving paddle.
#[derive(Clone, Copy, Debug, PartialEq, Eq, Structural)]
pub struct Paddle {
    pub side: Side,
    /// Vertical speed in raw fixed-point units per second.
    pub speed: i64,
    /// Points scored against the other side; never decreases during a
    /// session.
    pub score: u32,
    /// Collider half-extents.
    pub half: Vec2,
    /// Collider center.
    pub pos: Vec2,
}

impl Paddle {
    pub open spec fn wf(self) -> bool {
        &&& 0 < self.speed <= GEOM_MAX
        &&& 0 < self.half.x <= GEOM_MAX
        &&& 0 < self.half.y <= GEOM_MAX
        &&& self.pos.bounded(POS_MAX as int)
    }

    pub open spec fn spec_aabb(self) -> Aabb {
        Aabb { center: self.pos, half: self.half }
    }

    /// The paddle's collider box at its current position.
    pub fn aabb(&self) -> (b: Aabb)
        ensures
            b == self.spec_aabb(),
    {
        Aabb { center: self.pos, half: self.half }
    }
}

/// The bouncing ball.
#[derive(Clone, Copy, Debug, PartialEq, Eq, Structural)]
pub struct Ball {
    /// Collider center.
    pub pos: Vec2,
    /// Unit-length direction in fixed point: `dir.x^2 + dir.y^2` equals
    /// `FP_ONE^2` exactly, which single-axis sign flips preserve.
    pub dir: Vec2,
    /// Scalar speed in raw fixed-point units per second.
    pub speed: i64,
    /// Collider half-extents.
    pub half: Vec2,
}

impl Ball {
    pub open spec fn wf(self) -> bool {
        &&& self.dir.x * self.dir.x + self.dir.y * self.dir.y == FP_ONE * FP_ONE
        &&& 0 < self.speed <= SPEED_CAP
        &&& 0 < self.half.x <= GEOM_MAX
        &&& 0 < self.half.y <= GEOM_MAX
    }

    pub open spec fn spec_aabb(self) -> Aabb {
        Aabb { center: self.pos, half: self.half }
    }

    /// The ball's collider box at its current position.
    pub fn aabb(&self) -> (b: Aabb)
        ensures
            b == self.spec_aabb(),
    {
        Aabb { center: self.pos, half: self.half }
    }
}

/// Current visible extent of the game area, reported by the presentation
/// layer; it may change between ticks when the window is resized. A
/// degenerate zero extent is tolerated and merely leaves the ball
/// permanently out of bounds.
#[derive(Clone, Copy, Debug, PartialEq, Eq, Structural)]
pub struct Playfield {
    pub width: i64,
    pub height: i64,
}

impl Playfield {
    pub open spec fn wf(self) -> bool {
        &&& 0 <= self.width <= GEOM_MAX
        &&& 0 <= self.height <= GEOM_MAX
    }
}

/// Session configuration, validated once at startup.
#[derive(Clone, Copy, Debug, PartialEq, Eq, Structural)]
pub struct Config {
    /// Playfield extent at startup.
    pub width: i64,
    pub height: i64,
    /// Paddle collider half-extents.
    pub paddle_half: Vec2,
    /// Ball collider half-extents.
    pub ball_half: Vec2,
    /// Vertical paddle speed, fixed-point units per second.
    pub paddle_speed: i64,
    /// The ball's initial speed, restored on every scoring reset.
    pub base_speed: i64,
    /// Horizontal distance of each paddle's center from the field center.
    pub paddle_offset: i64,
    /// The ball's initial direction; must be unit length in fixed point.
    pub initial_dir: Vec2,
}

/// Why a configuration was rejected at session setup.
#[derive(Clone, Copy, Debug, PartialEq, Eq, Structural)]
pub enum ConfigError {
    /// Playfield width or height is zero or negative.
    NonPositivePlayfield,
    /// A paddle or ball collider half-extent is zero or negative.
    ZeroCollider,
    /// Paddle speed or the ball's base speed is zero or negative.
    NonPositiveSpeed,
    /// The initial direction is not unit length.
    NotUnitDirection,
    /// A value exceeds the fixed-point ranges the simulation supports.
    OutOfRange,
}

/// First configuration fault found, checked in a fixed order; `None`
/// when the configuration is acceptable.
pub open spec fn spec_validate(cfg: Config) -> Option<ConfigError> {
    if cfg.width <= 0 || cfg.height <= 0 {
        Some(ConfigError::NonPositivePlayfield)
    } else if cfg.paddle_half.x <= 0 || cfg.paddle_half.y <= 0 || cfg.ball_half.x <= 0
        || cfg.ball_half.y <= 0 {
        Some(ConfigError::ZeroCollider)
    } else if cfg.paddle_speed <= 0 || cfg.base_speed <= 0 {
        Some(ConfigError::NonPositiveSpeed)
    } else if cfg.initial_dir.x * cfg.initial_dir.x + cfg.initial_dir.y * cfg.initial_dir.y
        != FP_ONE * FP_ONE {
        Some(ConfigError::NotUnitDirection)
    } else if cfg.width > GEOM_MAX || cfg.height > GEOM_MAX || cfg.paddle_half.x > GEOM_MAX
        || cfg.paddle_half.y > GEOM_MAX || cfg.ball_half.x > GEOM_MAX || cfg.ball_half.y > GEOM_MAX
        || cfg.paddle_speed > GEOM_MAX || cfg.base_speed > SPEED_CAP || cfg.paddle_offset
        > GEOM_MAX || cfg.paddle_offset < -GEOM_MAX {
        Some(ConfigError::OutOfRange)
    } else {
        None
    }
}

impl Config {
    pub open spec fn valid(self) -> bool {
        spec_validate(self) is None
    }

    /// The stock game configuration: an
    /// 800 x 800 field, paddles 55 x 150 at x = -500 and x = 500 moving
    /// at 300 units/second, and a 45 x 45 ball at 200 units/second on a
    /// diagonal unit direction (0.6, 0.8).
    pub fn standard() -> (cfg: Config)
        ensures
            cfg == (Config {
                width: 800_000 as i64,
                height: 800_000 as i64,
                paddle_half: Vec2 { x: 27_500 as i64, y: 75_000 as i64 },
                ball_half: Vec2 { x: 22_500 as i64, y: 22_500 as i64 },
                paddle_speed: 300_000 as i64,
                base_speed: 200_000 as i64,
                paddle_offset: 500_000 as i64,
                initial_dir: Vec2 { x: 600 as i64, y: 800 as i64 },
            }),
            cfg.valid(),
    {
        Config {
            width: 800 * FP_ONE,
            height: 800 * FP_ONE,
            paddle_half: Vec2 { x: 27_500, y: 75_000 },
            ball_half: Vec2 { x: 22_500, y: 22_500 },
            paddle_speed: 300 * FP_ONE,
            base_speed: 200 * FP_ONE,
            paddle_offset: 500 * FP_ONE,
            initial_dir: Vec2 { x: 600, y: 800 },
        }
    }

    /// Validates this configuration, returning the first fault found.
    pub fn validate(&self) -> (r: Option<ConfigError>)
        ensures
            r == spec_validate(*self),
    {
        if self.width <= 0 || self.height <= 0 {
            Some(ConfigError::NonPositivePlayfield)
        } else if self.paddle_half.x <= 0 || self.paddle_half.y <= 0 || self.ball_half.x <= 0
            || self.ball_half.y <= 0 {
            Some(ConfigError::ZeroCollider)
        } else if self.paddle_speed <= 0 || self.base_speed <= 0 {
            Some(ConfigError::NonPositiveSpeed)
        } else if self.initial_dir.x > FP_ONE || self.initial_dir.x < -FP_ONE || self.initial_dir.y
            > FP_ONE || self.initial_dir.y < -FP_ONE {
            // A component beyond one unit already rules out unit length.
            proof {
                let x = self.initial_dir.x as int;
                let y = self.initial_dir.y as int;
                assert(x * x + y * y != FP_ONE * FP_ONE) by (nonlinear_arith)
                    requires
                        x > FP_ONE || x < -FP_ONE || y > FP_ONE || y < -FP_ONE,
                ;
            }
            Some(ConfigError::NotUnitDirection)
        } else {
            let dx = self.initial_dir.x;
            let dy = self.initial_dir.y;
            proof {
                crate::fixed::lemma_mul_magnitude(dx as int, dx as int, FP_ONE as int, FP_ONE as int);
                crate::fixed::lemma_mul_magnitude(dy as int, dy as int, FP_ONE as int, FP_ONE as int);
            }
            if dx * dx + dy * dy != FP_ONE * FP_ONE {
                Some(ConfigError::NotUnitDirection)
            } else if self.width > GEOM_MAX || self.height > GEOM_MAX || self.paddle_half.x
                > GEOM_MAX || self.paddle_half.y > GEOM_MAX || self.ball_half.x > GEOM_MAX
                || self.ball_half.y > GEOM_MAX || self.paddle_speed > GEOM_MAX || self.base_speed
                > SPEED_CAP || self.paddle_offset > GEOM_MAX || self.paddle_offset < -GEOM_MAX {
                Some(ConfigError::OutOfRange)
            } else {
                None
            }
        }
    }
}

} // verus!
