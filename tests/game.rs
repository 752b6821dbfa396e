use breakout::ball::Ball;
use breakout::config::{Config, ConfigError};
use breakout::paddle::Paddle;
use breakout::screen::{CellKind, Scene};
use breakout::state::{Action, GameMode, State};
use breakout::velocity::Velocity;
use breakout::wall::Boundry;

fn playing() -> State {
    let mut s = State::new(Config::standard());
    s.mode = GameMode::Playing;
    s
}

fn flying(s: &mut State, x: isize, y: isize, vx: isize, vy: isize) {
    s.ball.x = x;
    s.ball.y = y;
    s.ball.velocity = Velocity { x: vx, y: vy };
    s.ball.launched = true;
}

#[test]
fn move_right_then_launch_from_the_left_edge() {
    let mut s = playing();
    assert_eq!(s.paddle.x, 0);
    assert_eq!((s.ball.x, s.ball.y), (0, 47));
    s.tick(Some(Action::MoveRight));
    assert_eq!(s.paddle.x, 4);
    s.tick(Some(Action::Launch));
    assert!(s.ball.launched);
    assert_eq!(s.ball.velocity, Velocity { x: 1, y: -1 });
}

#[test]
fn predicted_position_off_the_tiles_is_no_hit() {
    let mut s = playing();
    flying(&mut s, 1, 2, -1, -1);
    assert_eq!(s.get_colliding_wall(), None);
    s.tick(None);
    assert_eq!((s.ball.x, s.ball.y), (0, 1));
    assert_eq!(s.ball.velocity, Velocity { x: -1, y: -1 });
}

#[test]
fn paddle_turns_the_ball_upwards() {
    let mut s = playing();
    s.paddle.x = 3;
    flying(&mut s, 5, 48, 0, 1);
    assert!(s.paddle.detect_collision(&s.ball, &s.config));
    s.tick(None);
    assert_eq!(s.ball.velocity, Velocity { x: 0, y: -1 });
    assert_eq!((s.ball.x, s.ball.y), (5, 47));
}

#[test]
fn paddle_reach_includes_one_column_past_its_end() {
    let cfg = Config::standard();
    let p = Paddle::new(3);
    let at = |x: isize, y: isize| Ball { x, y, velocity: Velocity { x: 0, y: 1 }, launched: true };
    assert!(p.detect_collision(&at(3, 48), &cfg));
    assert!(p.detect_collision(&at(19, 48), &cfg));
    assert!(!p.detect_collision(&at(20, 48), &cfg));
    assert!(!p.detect_collision(&at(2, 48), &cfg));
    assert!(!p.detect_collision(&at(5, 47), &cfg));
}

#[test]
fn out_of_bounds_is_outside_the_rectangle() {
    let cfg = Config::standard();
    let at = |x: isize, y: isize| Ball::new(x, y);
    assert!(!at(1, 1).is_out_of_bounds(&cfg));
    assert!(!at(79, 49).is_out_of_bounds(&cfg));
    assert!(!at(0, 0).is_out_of_bounds(&cfg));
    assert!(!at(80, 50).is_out_of_bounds(&cfg));
    assert!(at(-1, 10).is_out_of_bounds(&cfg));
    assert!(at(81, 10).is_out_of_bounds(&cfg));
    assert!(at(10, -1).is_out_of_bounds(&cfg));
    assert!(at(10, 51).is_out_of_bounds(&cfg));
}

#[test]
fn double_corner_rebound_restores_velocity() {
    let cfg = Config::standard();
    let corner = Boundry::new(0, 2, '|');
    let mut b = Ball { x: 1, y: 3, velocity: Velocity { x: -1, y: -1 }, launched: true };
    b.handle_wall_collision(&corner, &cfg);
    assert_eq!(b.velocity, Velocity { x: 1, y: 1 });
    b.handle_wall_collision(&corner, &cfg);
    assert_eq!(b.velocity, Velocity { x: -1, y: -1 });
    let right_corner = Boundry::new(79, 2, '|');
    b.handle_wall_collision(&right_corner, &cfg);
    assert_eq!(b.velocity, Velocity { x: 1, y: 1 });
}

#[test]
fn top_and_side_tiles_invert_one_component() {
    let cfg = Config::standard();
    let mut b = Ball { x: 10, y: 3, velocity: Velocity { x: 1, y: -1 }, launched: true };
    b.handle_wall_collision(&Boundry::new(11, 2, '_'), &cfg);
    assert_eq!(b.velocity, Velocity { x: 1, y: 1 });
    b.handle_wall_collision(&Boundry::new(0, 20, '|'), &cfg);
    assert_eq!(b.velocity, Velocity { x: -1, y: 1 });
    b.handle_wall_collision(&Boundry::new(79, 20, '|'), &cfg);
    assert_eq!(b.velocity, Velocity { x: 1, y: 1 });
}

#[test]
fn ball_rebounds_off_the_top_wall() {
    let mut s = playing();
    flying(&mut s, 40, 3, 1, -1);
    assert_eq!(s.get_colliding_wall().map(|t| t.position), Some((41, 2)));
    s.tick(None);
    assert_eq!(s.ball.velocity, Velocity { x: 1, y: 1 });
    assert_eq!((s.ball.x, s.ball.y), (41, 4));
}

#[test]
fn ball_rebounds_off_the_side_walls() {
    let mut s = playing();
    flying(&mut s, 78, 10, 1, 1);
    s.tick(None);
    assert_eq!(s.ball.velocity, Velocity { x: -1, y: 1 });
    assert_eq!((s.ball.x, s.ball.y), (77, 11));
    flying(&mut s, 1, 10, -1, -1);
    s.tick(None);
    assert_eq!(s.ball.velocity, Velocity { x: 1, y: -1 });
    assert_eq!((s.ball.x, s.ball.y), (2, 9));
}

#[test]
fn lost_ball_returns_to_the_paddle() {
    let mut s = playing();
    s.paddle.x = 30;
    flying(&mut s, 40, 51, 1, 1);
    s.tick(None);
    assert!(!s.ball.launched);
    assert_eq!((s.ball.x, s.ball.y), (30, 47));
}

#[test]
fn anchored_ball_rides_the_paddle() {
    let mut s = playing();
    s.paddle.x = 12;
    s.tick(None);
    assert_eq!((s.ball.x, s.ball.y), (12, 47));
    assert!(!s.ball.launched);
}

#[test]
fn paddle_momentum_builds_and_clamps() {
    let cfg = Config::standard();
    let mut p = Paddle::new(0);
    p.move_right(4, &cfg);
    assert_eq!((p.x, p.velocity.x), (4, 4));
    p.move_right(4, &cfg);
    assert_eq!((p.x, p.velocity.x), (12, 8));
    for _ in 0..20 {
        p.move_right(4, &cfg);
        assert!(p.x >= 0 && p.x <= 65);
    }
    assert_eq!(p.x, 65);
    assert_eq!(p.velocity.x, 88);
    p.move_left(4, &cfg);
    assert_eq!((p.x, p.velocity.x), (61, -4));
    for _ in 0..20 {
        p.move_left(4, &cfg);
        assert!(p.x >= 0 && p.x <= 65);
    }
    assert_eq!(p.x, 0);
}

#[test]
fn clamped_paddle_keeps_its_velocity() {
    let cfg = Config::standard();
    let mut p = Paddle::new(60);
    p.move_right(4, &cfg);
    assert_eq!((p.x, p.velocity.x), (64, 4));
    p.move_right(4, &cfg);
    assert_eq!((p.x, p.velocity.x), (65, 8));
}

#[test]
fn reversing_drops_momentum() {
    let cfg = Config::standard();
    let mut p = Paddle::new(30);
    p.move_left(4, &cfg);
    p.move_left(4, &cfg);
    assert_eq!((p.x, p.velocity.x), (18, -8));
    p.move_right(4, &cfg);
    assert_eq!((p.x, p.velocity.x), (22, 4));
}

#[test]
fn other_key_stops_the_paddle() {
    let mut s = playing();
    s.tick(Some(Action::MoveRight));
    assert_eq!(s.paddle.velocity.x, 4);
    s.tick(Some(Action::Other));
    assert_eq!(s.paddle.velocity.x, 0);
    s.tick(Some(Action::MoveRight));
    s.tick(None);
    assert_eq!(s.paddle.velocity.x, 4);
    s.tick(Some(Action::Confirm));
    assert_eq!(s.paddle.velocity.x, 0);
    assert_eq!(s.mode, GameMode::Playing);
}

#[test]
fn launch_follows_a_leftward_paddle() {
    let mut s = playing();
    s.paddle.x = 40;
    s.tick(Some(Action::MoveLeft));
    s.tick(Some(Action::Launch));
    assert!(s.ball.launched);
    assert_eq!(s.ball.velocity, Velocity { x: -1, y: -1 });
    let before = s.ball;
    s.tick(Some(Action::Launch));
    assert_eq!(s.ball.velocity, before.velocity);
}

fn assert_fresh(s: &State) {
    assert_eq!(s.mode, GameMode::Playing);
    assert_eq!((s.score, s.frame_time), (0, 0));
    assert_eq!((s.paddle.x, s.paddle.velocity), (0, Velocity { x: 0, y: 0 }));
    assert!(!s.ball.launched);
    assert_eq!((s.ball.x, s.ball.y), (0, 47));
    assert_eq!(s.ball.velocity, Velocity { x: 0, y: 0 });
}

#[test]
fn every_way_into_play_starts_fresh() {
    let mut s = State::new(Config::standard());
    assert_eq!(s.mode, GameMode::Menu);
    let f = s.tick(Some(Action::Launch));
    assert_eq!(s.mode, GameMode::Menu);
    assert_eq!(f.scene, Scene::Menu);
    s.tick(Some(Action::Confirm));
    assert_fresh(&s);
    s.tick(Some(Action::MoveRight));
    s.tick(Some(Action::Launch));
    s.tick(None);
    assert!(s.ball.launched);
    assert_eq!(s.paddle.x, 4);
    s.mode = GameMode::End;
    s.score = 7;
    s.frame_time = 900;
    let f = s.tick(None);
    assert_eq!(f.scene, Scene::GameOver(7));
    assert_eq!(s.mode, GameMode::End);
    assert!(s.ball.launched);
    s.tick(Some(Action::Confirm));
    assert_fresh(&s);
    s.tick(Some(Action::MoveRight));
    s.tick(Some(Action::Launch));
    s.tick(None);
    assert!(s.ball.launched);
    s.mode = GameMode::Menu;
    s.score = 3;
    s.tick(Some(Action::Confirm));
    assert_fresh(&s);
}

#[test]
fn quit_is_reported_in_every_mode() {
    let mut s = State::new(Config::standard());
    assert!(s.tick(Some(Action::Quit)).quit);
    assert!(!s.tick(None).quit);
    s.mode = GameMode::Playing;
    assert!(s.tick(Some(Action::Quit)).quit);
    assert!(!s.tick(Some(Action::MoveLeft)).quit);
    s.mode = GameMode::End;
    assert!(s.tick(Some(Action::Quit)).quit);
    assert_eq!(s.mode, GameMode::End);
}

#[test]
fn wall_tiles_frame_the_top_and_sides() {
    let cfg = Config::standard();
    let tiles = State::init_wall_tiles(&cfg);
    assert_eq!(tiles.len(), 78 + 47 + 47);
    assert_eq!(tiles[0].position, (1, 2));
    assert_eq!(tiles[77].position, (78, 2));
    assert_eq!(tiles[78].position, (0, 3));
    assert_eq!(tiles[124].position, (0, 49));
    assert_eq!(tiles[125].position, (79, 3));
    assert_eq!(tiles[171].position, (79, 49));
    assert_eq!(tiles[0].glyph, 95);
    assert_eq!(tiles[78].glyph, 124);
    assert!(!tiles.iter().any(|t| t.position == (0, 2) || t.position == (79, 2)));
    assert!(tiles[0].is_top_boundry(&cfg));
    assert!(tiles[78].is_left_boundry());
    assert!(tiles[125].is_right_boundry(&cfg));
}

#[test]
fn glyphs_come_from_code_page_437() {
    assert_eq!(Boundry::new(5, 5, '@').glyph, 64);
    assert_eq!(Boundry::new(5, 5, '☺').glyph, 1);
    assert_eq!(Boundry::new(5, 5, '░').glyph, 176);
}

#[test]
fn playing_frame_draws_walls_ball_and_paddle() {
    let mut s = playing();
    s.paddle.x = 10;
    s.tick(Some(Action::MoveRight));
    let f = s.tick(None);
    match f.scene {
        Scene::Playfield(cells) => {
            assert_eq!(cells.len(), 172 + 1 + 15);
            assert_eq!(cells[0].kind, CellKind::Wall);
            assert_eq!((cells[0].x, cells[0].y, cells[0].glyph), (1, 2, 95));
            let ball = cells[172];
            assert_eq!(ball.kind, CellKind::Ball);
            assert_eq!((ball.x, ball.y, ball.glyph), (14, 47, 64));
            for (i, c) in cells[173..].iter().enumerate() {
                assert_eq!(c.kind, CellKind::Paddle);
                assert_eq!((c.x, c.y, c.glyph), (14 + i as isize, 48, 32));
            }
        }
        other => panic!("expected the playfield, got {:?}", other),
    }
}

#[test]
fn config_rejects_unplayable_geometry() {
    assert_eq!(Config::new(80, 50, 2, 0, 48), Err(ConfigError::PaddleTooNarrow));
    assert_eq!(Config::new(80, 50, 2, 80, 48), Err(ConfigError::PaddleTooWide));
    assert_eq!(Config::new(80, 50, 48, 15, 48), Err(ConfigError::RowsOutOfOrder));
    assert_eq!(Config::new(80, 50, 2, 15, 50), Err(ConfigError::RowsOutOfOrder));
    assert_eq!(Config::new(80, 50, -1, 15, 48), Err(ConfigError::RowsOutOfOrder));
    assert_eq!(Config::new(isize::MAX, 50, 2, 15, 48), Err(ConfigError::ScreenTooLarge));
    assert_eq!(Config::new(80, 50, 2, 15, 48), Ok(Config::standard()));
}

#[test]
fn smaller_field_scales_the_walls_and_clamp() {
    let cfg = Config::new(10, 6, 1, 4, 4).unwrap();
    let mut s = State::new(cfg);
    assert_eq!(s.wall_tiles.len(), 8 + 4 + 4);
    s.mode = GameMode::Playing;
    for _ in 0..5 {
        s.tick(Some(Action::MoveRight));
    }
    assert_eq!(s.paddle.x, 6);
}
