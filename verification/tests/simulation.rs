use pokepong::entities::{Ball, Config, ConfigError, Paddle, PaddleInput, Playfield, Side};
use pokepong::geom::Vec2;
use pokepong::sim::{
    ball_movement, ball_out, ball_player_bounce, ball_wall_bounce, player_movement, resolve_input,
    Session,
};

fn standard_field() -> Playfield {
    Playfield {
        width: 800_000,
        height: 800_000,
    }
}

fn left_paddle_at(x: i64, y: i64) -> Paddle {
    Paddle {
        side: Side::Left,
        speed: 300_000,
        score: 0,
        half: Vec2 { x: 27_500, y: 75_000 },
        pos: Vec2 { x, y },
    }
}

fn right_paddle_at(x: i64, y: i64) -> Paddle {
    Paddle {
        side: Side::Right,
        ..left_paddle_at(x, y)
    }
}

#[test]
fn resolve_input_picks_down_when_both_keys_held() {
    assert_eq!(resolve_input(true, true), PaddleInput::Down);
    assert_eq!(resolve_input(true, false), PaddleInput::Up);
    assert_eq!(resolve_input(false, true), PaddleInput::Down);
    assert_eq!(resolve_input(false, false), PaddleInput::Idle);
}

#[test]
fn paddle_at_top_boundary_rejects_up_but_moves_down() {
    // Paddle centered at y = height / 2 with a 0.1 s tick: "up" is
    // rejected outright, "down" applies the full 30-unit step.
    let mut up = left_paddle_at(-500_000, 400_000);
    player_movement(&mut up, PaddleInput::Up, 100, &standard_field());
    assert_eq!(up.pos, Vec2 { x: -500_000, y: 400_000 });

    let mut down = left_paddle_at(-500_000, 400_000);
    player_movement(&mut down, PaddleInput::Down, 100, &standard_field());
    assert_eq!(down.pos, Vec2 { x: -500_000, y: 370_000 });
}

#[test]
fn paddle_with_idle_input_stays_put() {
    let mut p = right_paddle_at(500_000, 123_000);
    player_movement(&mut p, PaddleInput::Idle, 100, &standard_field());
    assert_eq!(p.pos, Vec2 { x: 500_000, y: 123_000 });
}

#[test]
fn paddle_move_is_never_partially_applied() {
    // The top edge may not pass 400 units, so the center may not pass
    // 325. Ten full 30-unit steps reach 300; the eleventh would land on
    // 330 and is rejected whole instead of clamping to 325.
    let mut p = left_paddle_at(-500_000, 0);
    for _ in 0..13 {
        player_movement(&mut p, PaddleInput::Up, 100, &standard_field());
    }
    assert_eq!(p.pos.y, 300_000);
    player_movement(&mut p, PaddleInput::Up, 100, &standard_field());
    assert_eq!(p.pos.y, 300_000);
}

#[test]
fn ball_integration_moves_speed_times_dt() {
    // Ball at the center, direction (1, 0), speed 100 units/s, dt 1 s:
    // it ends at (100, 0).
    let mut b = Ball {
        pos: Vec2 { x: 0, y: 0 },
        dir: Vec2 { x: 1000, y: 0 },
        speed: 100_000,
        half: Vec2 { x: 5_000, y: 5_000 },
    };
    ball_movement(&mut b, 1000);
    assert_eq!(b.pos, Vec2 { x: 100_000, y: 0 });
}

#[test]
fn ball_touching_paddle_flips_horizontally_and_speeds_up() {
    // Ball box [485, 495] touches paddle box [495, 505] at 495: a
    // horizontal-dominant contact, so direction.x flips and the speed
    // ramps by the 100 unit/s increment.
    let mut b = Ball {
        pos: Vec2 { x: 490_000, y: 0 },
        dir: Vec2 { x: 1000, y: 0 },
        speed: 200_000,
        half: Vec2 { x: 5_000, y: 5_000 },
    };
    let left = left_paddle_at(-500_000, 0);
    let mut right = right_paddle_at(500_000, 0);
    right.half = Vec2 { x: 5_000, y: 75_000 };
    ball_player_bounce(&mut b, &left, &right);
    assert_eq!(b.dir, Vec2 { x: -1000, y: 0 });
    assert_eq!(b.speed, 300_000);
    assert_eq!(b.pos, Vec2 { x: 490_000, y: 0 });
}

#[test]
fn ball_overlapping_both_paddles_flips_twice() {
    // Both paddles overlap the ball in the same tick; both responses
    // apply in sequence, so the two horizontal flips cancel and the
    // speed ramps twice.
    let mut b = Ball {
        pos: Vec2 { x: 0, y: 0 },
        dir: Vec2 { x: 600, y: 800 },
        speed: 200_000,
        half: Vec2 { x: 22_500, y: 22_500 },
    };
    let mut left = left_paddle_at(-25_000, 0);
    left.half = Vec2 { x: 5_000, y: 75_000 };
    let mut right = right_paddle_at(25_000, 0);
    right.half = Vec2 { x: 5_000, y: 75_000 };
    ball_player_bounce(&mut b, &left, &right);
    assert_eq!(b.dir, Vec2 { x: 600, y: 800 });
    assert_eq!(b.speed, 400_000);
}

#[test]
fn ball_speed_saturates_at_the_cap() {
    let mut b = Ball {
        pos: Vec2 { x: 490_000, y: 0 },
        dir: Vec2 { x: 1000, y: 0 },
        speed: 999_950_000,
        half: Vec2 { x: 5_000, y: 5_000 },
    };
    let left = left_paddle_at(-500_000, 0);
    let right = right_paddle_at(500_000, 0);
    ball_player_bounce(&mut b, &left, &right);
    assert_eq!(b.speed, 1_000_000_000);
}

#[test]
fn wall_bounce_flips_vertical_direction_only() {
    let mut b = Ball {
        pos: Vec2 { x: 0, y: 380_000 },
        dir: Vec2 { x: 600, y: 800 },
        speed: 200_000,
        half: Vec2 { x: 22_500, y: 22_500 },
    };
    ball_wall_bounce(&mut b, &standard_field());
    assert_eq!(b.dir, Vec2 { x: 600, y: -800 });
    assert_eq!(b.pos, Vec2 { x: 0, y: 380_000 });
    assert_eq!(b.speed, 200_000);
}

#[test]
fn direction_flip_preserves_squared_length() {
    let mut b = Ball {
        pos: Vec2 { x: 0, y: 380_000 },
        dir: Vec2 { x: 600, y: 800 },
        speed: 200_000,
        half: Vec2 { x: 22_500, y: 22_500 },
    };
    let before = b.dir.x * b.dir.x + b.dir.y * b.dir.y;
    ball_wall_bounce(&mut b, &standard_field());
    let after = b.dir.x * b.dir.x + b.dir.y * b.dir.y;
    assert_eq!(before, 1_000_000);
    assert_eq!(after, 1_000_000);
}

#[test]
fn ball_spanning_both_walls_flips_twice() {
    // In a field thinner than the ball both wall checks fire and the
    // two flips cancel: the accepted tunneling approximation.
    let field = Playfield {
        width: 800_000,
        height: 10_000,
    };
    let mut b = Ball {
        pos: Vec2 { x: 0, y: 0 },
        dir: Vec2 { x: 600, y: 800 },
        speed: 200_000,
        half: Vec2 { x: 22_500, y: 22_500 },
    };
    ball_wall_bounce(&mut b, &field);
    assert_eq!(b.dir, Vec2 { x: 600, y: 800 });
}

#[test]
fn right_exit_credits_left_paddle_and_resets_ball() {
    let mut b = Ball {
        pos: Vec2 { x: 400_001, y: 123_000 },
        dir: Vec2 { x: 600, y: 800 },
        speed: 700_000,
        half: Vec2 { x: 22_500, y: 22_500 },
    };
    let mut left = left_paddle_at(-500_000, 0);
    left.score = 3;
    let mut right = right_paddle_at(500_000, 0);
    right.score = 5;
    ball_out(&mut b, &mut left, &mut right, &standard_field(), 200_000);
    assert_eq!(b.pos, Vec2 { x: 0, y: 0 });
    assert_eq!(b.speed, 200_000);
    assert_eq!(b.dir, Vec2 { x: 600, y: 800 });
    assert_eq!(left.score, 4);
    assert_eq!(right.score, 5);
}

#[test]
fn left_exit_credits_right_paddle() {
    let mut b = Ball {
        pos: Vec2 { x: -400_001, y: 0 },
        dir: Vec2 { x: -600, y: 800 },
        speed: 700_000,
        half: Vec2 { x: 22_500, y: 22_500 },
    };
    let mut left = left_paddle_at(-500_000, 0);
    let mut right = right_paddle_at(500_000, 0);
    ball_out(&mut b, &mut left, &mut right, &standard_field(), 200_000);
    assert_eq!(b.pos, Vec2 { x: 0, y: 0 });
    assert_eq!(left.score, 0);
    assert_eq!(right.score, 1);
}

#[test]
fn score_saturates_instead_of_wrapping() {
    let mut b = Ball {
        pos: Vec2 { x: 400_001, y: 0 },
        dir: Vec2 { x: 600, y: 800 },
        speed: 700_000,
        half: Vec2 { x: 22_500, y: 22_500 },
    };
    let mut left = left_paddle_at(-500_000, 0);
    left.score = u32::MAX;
    let mut right = right_paddle_at(500_000, 0);
    ball_out(&mut b, &mut left, &mut right, &standard_field(), 200_000);
    assert_eq!(left.score, u32::MAX);
    assert_eq!(b.pos, Vec2 { x: 0, y: 0 });
}

#[test]
fn new_session_from_standard_config() {
    let s = Session::new(&Config::standard()).unwrap();
    assert_eq!(s.left.side, Side::Left);
    assert_eq!(s.right.side, Side::Right);
    assert_eq!(s.left.pos, Vec2 { x: -500_000, y: 0 });
    assert_eq!(s.right.pos, Vec2 { x: 500_000, y: 0 });
    assert_eq!(s.left.score, 0);
    assert_eq!(s.right.score, 0);
    assert_eq!(s.ball.pos, Vec2 { x: 0, y: 0 });
    assert_eq!(s.ball.dir, Vec2 { x: 600, y: 800 });
    assert_eq!(s.ball.speed, 200_000);
    assert_eq!(s.base_speed, 200_000);
    assert_eq!(s.score_board(), "0:0");
}

#[test]
fn zero_width_playfield_is_rejected_at_setup() {
    let mut cfg = Config::standard();
    cfg.width = 0;
    assert_eq!(Session::new(&cfg), Err(ConfigError::NonPositivePlayfield));
}

#[test]
fn zero_collider_is_rejected_at_setup() {
    let mut cfg = Config::standard();
    cfg.ball_half.x = 0;
    assert_eq!(Session::new(&cfg), Err(ConfigError::ZeroCollider));
}

#[test]
fn non_positive_speed_is_rejected_at_setup() {
    let mut cfg = Config::standard();
    cfg.paddle_speed = 0;
    assert_eq!(Session::new(&cfg), Err(ConfigError::NonPositiveSpeed));
}

#[test]
fn non_unit_direction_is_rejected_at_setup() {
    let mut cfg = Config::standard();
    cfg.initial_dir = Vec2 { x: 1000, y: 1 };
    assert_eq!(Session::new(&cfg), Err(ConfigError::NotUnitDirection));
    cfg.initial_dir = Vec2 { x: 2_000_000, y: 0 };
    assert_eq!(Session::new(&cfg), Err(ConfigError::NotUnitDirection));
}

#[test]
fn oversized_config_is_rejected_at_setup() {
    let mut cfg = Config::standard();
    cfg.base_speed = 2_000_000_000;
    assert_eq!(Session::new(&cfg), Err(ConfigError::OutOfRange));
}

#[test]
fn tick_integrates_the_ball_when_nothing_is_hit() {
    // One full pipeline pass of the integration scenario: no paddle in
    // range, both inputs idle, dt one second.
    let mut cfg = Config::standard();
    cfg.ball_half = Vec2 { x: 5_000, y: 5_000 };
    cfg.base_speed = 100_000;
    cfg.initial_dir = Vec2 { x: 1000, y: 0 };
    let mut s = Session::new(&cfg).unwrap();
    let board = s.tick(PaddleInput::Idle, PaddleInput::Idle, 1000, &standard_field());
    assert_eq!(s.ball.pos, Vec2 { x: 100_000, y: 0 });
    assert_eq!(s.ball.speed, 100_000);
    assert_eq!(board, "0:0");
}

#[test]
fn tick_scores_and_resets_an_out_of_bounds_ball() {
    // Ball one unit past the right edge: after one 16 ms tick it is
    // back at the center at the base speed, the left paddle is up one
    // point, and the right paddle is unchanged.
    let mut s = Session::new(&Config::standard()).unwrap();
    s.ball.pos = Vec2 { x: 401_000, y: 0 };
    let board = s.tick(PaddleInput::Idle, PaddleInput::Idle, 16, &standard_field());
    assert_eq!(s.ball.pos, Vec2 { x: 0, y: 0 });
    assert_eq!(s.ball.speed, 200_000);
    assert_eq!(s.left.score, 1);
    assert_eq!(s.right.score, 0);
    assert_eq!(board, "1:0");
}

#[test]
fn zero_size_playfield_degrades_to_permanent_scoring() {
    // A degenerate live playfield is tolerated per tick: the ball is
    // out of bounds as soon as it moves, so every tick scores and
    // resets.
    let mut s = Session::new(&Config::standard()).unwrap();
    let field = Playfield { width: 0, height: 0 };
    let first = s.tick(PaddleInput::Idle, PaddleInput::Idle, 1000, &field);
    assert_eq!(first, "1:0");
    let second = s.tick(PaddleInput::Idle, PaddleInput::Idle, 1000, &field);
    assert_eq!(second, "2:0");
    assert_eq!(s.ball.pos, Vec2 { x: 0, y: 0 });
}

#[test]
fn tick_moves_paddles_by_their_input() {
    let mut s = Session::new(&Config::standard()).unwrap();
    s.tick(PaddleInput::Up, PaddleInput::Down, 100, &standard_field());
    assert_eq!(s.left.pos, Vec2 { x: -500_000, y: 30_000 });
    assert_eq!(s.right.pos, Vec2 { x: 500_000, y: -30_000 });
}
