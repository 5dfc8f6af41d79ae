use rong::ball::Ball;
use rong::input::Input;
use rong::player::{Player, PlayerID};
use rong::state::MainState;
use rong::teleporter::{Teleporter, TeleporterLocation};
use rong::units::UNIT;

fn fresh(opponent: PlayerID) -> MainState {
    MainState::new(
        Player::new(PlayerID::Player1),
        Player::new(opponent),
        Ball::new(),
        Teleporter::new(TeleporterLocation::Top),
        Teleporter::new(TeleporterLocation::Bottom),
    )
}

fn idle() -> Input {
    Input { p1_up: false, p1_down: false, p2_up: false, p2_down: false }
}

#[test]
fn bounce_above_top_edge_flips_speed_and_keeps_place() {
    let mut b = Ball::new();
    b.pos_y = -UNIT;
    b.vel_y = -3 * UNIT;
    b.bounce();
    assert_eq!(b.vel_y, 3 * UNIT);
    assert_eq!(b.pos_y, -UNIT);
}

#[test]
fn bounce_on_edges_and_not_between() {
    let mut b = Ball::new();
    b.pos_y = 0;
    b.vel_y = -2 * UNIT;
    b.bounce();
    assert_eq!(b.vel_y, 2 * UNIT);
    b.pos_y = 400 * UNIT;
    b.bounce();
    assert_eq!(b.vel_y, -2 * UNIT);
    b.pos_y = 400 * UNIT - 1;
    b.bounce();
    assert_eq!(b.vel_y, -2 * UNIT);
    b.pos_y = 1;
    b.bounce();
    assert_eq!(b.vel_y, -2 * UNIT);
}

#[test]
fn ball_outside_keeps_flipping() {
    let mut s = fresh(PlayerID::Player2);
    s.ball.pos_x = 100 * UNIT;
    s.ball.pos_y = -10 * UNIT;
    s.ball.vel_x = 0;
    s.ball.vel_y = -5 * UNIT;
    assert!(s.is_wf());
    s.step_with(&idle(), 0);
    assert_eq!((s.ball.pos_y, s.ball.vel_y), (-5 * UNIT, 5 * UNIT));
    s.step_with(&idle(), 0);
    assert_eq!((s.ball.pos_y, s.ball.vel_y), (-10 * UNIT, -5 * UNIT));
    assert!(s.is_wf());
}

#[test]
fn deflection_formula_exact_values() {
    // speed 12 + 1 = 13, struck 20 below the reference: 13 * 20 / 100 = 2.6
    let mut b = Ball::new();
    b.vel_x = -12 * UNIT;
    b.pos_y = 220 * UNIT;
    b.deflect(200 * UNIT);
    assert_eq!(b.vel_x, 12 * UNIT);
    assert_eq!(b.vel_y, 2_600);
    // speed 12 + 2.6 = 14.6, struck 7.5 above: -1.095
    b.pos_y = 192_500;
    b.deflect(200 * UNIT);
    assert_eq!(b.vel_x, -12 * UNIT);
    assert_eq!(b.vel_y, -1_095);
    // 13.095 * 0.007 / 100 rounds toward zero
    b.pos_y = 200_007;
    b.deflect(200 * UNIT);
    assert_eq!(b.vel_y, 0);
    b.vel_y = -1_095;
    b.pos_y = 199_993;
    b.deflect(200 * UNIT);
    assert_eq!(b.vel_y, 0);
    // 13.095 * 1.234 / 100 = 0.16159..., and the same above the reference
    b.vel_y = 1_095;
    b.pos_y = 201_234;
    b.deflect(200 * UNIT);
    assert_eq!(b.vel_y, 161);
    b.vel_y = 1_095;
    b.pos_y = 198_766;
    b.deflect(200 * UNIT);
    assert_eq!(b.vel_y, -161);
}

#[test]
fn deflection_is_clamped_both_ways() {
    let mut b = Ball::new();
    b.vel_y = 3 * UNIT;
    b.pos_y = 250 * UNIT;
    b.deflect(200 * UNIT);
    assert_eq!(b.vel_y, 5 * UNIT);
    b.pos_y = 150 * UNIT;
    b.deflect(200 * UNIT);
    assert_eq!(b.vel_y, -5 * UNIT);
    // 12 * 41.666 / 100 = 4.99992 stays, 12 * 41.667 / 100 = 5.00004 is cut
    b.vel_y = 0;
    b.pos_y = 241_666;
    b.deflect(200 * UNIT);
    assert_eq!(b.vel_y, 4_999);
    b.vel_y = 0;
    b.pos_y = 241_667;
    b.deflect(200 * UNIT);
    assert_eq!(b.vel_y, 5_000);
}

#[test]
fn left_face_is_half_a_paddle_wide() {
    let mut s = fresh(PlayerID::Player2);
    s.ball.pos_y = 200 * UNIT;
    s.ball.pos_x = 20 * UNIT;
    assert!(s.check_paddle_collisions(PlayerID::Player1));
    s.ball.pos_x = 40 * UNIT;
    assert!(s.check_paddle_collisions(PlayerID::Player1));
    s.ball.pos_x = 40 * UNIT + 1;
    assert!(!s.check_paddle_collisions(PlayerID::Player1));
    s.ball.pos_x = 20 * UNIT - 1;
    assert!(!s.check_paddle_collisions(PlayerID::Player1));
    s.ball.pos_x = 30 * UNIT;
    s.ball.pos_y = 150 * UNIT;
    assert!(s.check_paddle_collisions(PlayerID::Player1));
    s.ball.pos_y = 250 * UNIT;
    assert!(s.check_paddle_collisions(PlayerID::Player1));
    s.ball.pos_y = 250 * UNIT + 1;
    assert!(!s.check_paddle_collisions(PlayerID::Player1));
    s.ball.pos_y = 150 * UNIT - 1;
    assert!(!s.check_paddle_collisions(PlayerID::Player1));
}

#[test]
fn right_face_is_a_whole_paddle_wide() {
    let mut s = fresh(PlayerID::Player2);
    s.ball.pos_y = 200 * UNIT;
    s.ball.pos_x = 760 * UNIT;
    assert!(s.check_paddle_collisions(PlayerID::Player2));
    assert!(s.check_paddle_collisions(PlayerID::Comp));
    assert!(!s.check_paddle_collisions(PlayerID::Player1));
    s.ball.pos_x = 800 * UNIT;
    assert!(s.check_paddle_collisions(PlayerID::Player2));
    s.ball.pos_x = 800 * UNIT + 1;
    assert!(!s.check_paddle_collisions(PlayerID::Player2));
    s.ball.pos_x = 760 * UNIT - 1;
    assert!(!s.check_paddle_collisions(PlayerID::Player2));
}

#[test]
fn paddle_returns_only_a_ball_coming_toward_it() {
    let mut s = fresh(PlayerID::Player2);
    s.ball.pos_x = 30 * UNIT;
    s.ball.pos_y = 220 * UNIT;
    s.ball.vel_x = 12 * UNIT;
    s.ball.vel_y = UNIT;
    s.reflect_ball();
    assert_eq!((s.ball.vel_x, s.ball.vel_y), (12 * UNIT, UNIT));
    s.ball.vel_x = -12 * UNIT;
    s.reflect_ball();
    assert_eq!((s.ball.vel_x, s.ball.vel_y), (12 * UNIT, 2_600));

    s.ball.pos_x = 790 * UNIT;
    s.ball.pos_y = 180 * UNIT;
    s.ball.vel_x = -12 * UNIT;
    s.ball.vel_y = UNIT;
    s.reflect_ball();
    assert_eq!((s.ball.vel_x, s.ball.vel_y), (-12 * UNIT, UNIT));
    s.ball.vel_x = 12 * UNIT;
    s.reflect_ball();
    assert_eq!((s.ball.vel_x, s.ball.vel_y), (-12 * UNIT, -2_600));
}

#[test]
fn returned_ball_in_a_whole_tick() {
    let mut s = fresh(PlayerID::Player2);
    s.ball.pos_x = 799 * UNIT;
    s.ball.pos_y = 200 * UNIT;
    s.ball.vel_x = 12 * UNIT;
    s.ball.vel_y = 0;
    assert!(s.is_wf());
    s.step_with(&idle(), 9);
    assert_eq!(s.player1_score, 0);
    assert_eq!((s.ball.vel_x, s.ball.vel_y), (-12 * UNIT, 0));
    assert_eq!((s.ball.pos_x, s.ball.pos_y), (787 * UNIT, 200 * UNIT));
}

#[test]
fn horizontal_speed_keeps_its_size_over_many_ticks() {
    let mut s = fresh(PlayerID::Comp);
    let held = Input { p1_up: true, p1_down: false, p2_up: false, p2_down: true };
    let mut row = 0;
    for _ in 0..5_000 {
        if s.is_game_over() {
            break;
        }
        row = (row + 37) % 401;
        s.step_with(&held, row);
        assert!(s.is_wf());
        if !s.is_game_over() {
            assert_eq!(s.ball.vel_x.abs(), 12 * UNIT);
        }
        assert!(s.ball.vel_y.abs() <= 5 * UNIT);
        assert!(-6 * UNIT <= s.player1.pos_y && s.player1.pos_y <= 306 * UNIT);
        assert!(-6 * UNIT <= s.player2.pos_y && s.player2.pos_y <= 306 * UNIT);
    }
}

#[test]
fn teleporter_zones() {
    let mut s = fresh(PlayerID::Player2);
    s.ball.pos_x = 325 * UNIT;
    s.ball.pos_y = 5 * UNIT;
    assert!(s.check_teleport_collisions(TeleporterLocation::Top));
    assert!(!s.check_teleport_collisions(TeleporterLocation::Bottom));
    s.ball.pos_y = 5 * UNIT + 1;
    assert!(!s.check_teleport_collisions(TeleporterLocation::Top));
    s.ball.pos_y = -8 * UNIT;
    s.ball.pos_x = 625 * UNIT;
    assert!(s.check_teleport_collisions(TeleporterLocation::Top));
    s.ball.pos_x = 625 * UNIT + 1;
    assert!(!s.check_teleport_collisions(TeleporterLocation::Top));
    s.ball.pos_x = 325 * UNIT - 1;
    assert!(!s.check_teleport_collisions(TeleporterLocation::Top));
    s.ball.pos_x = 400 * UNIT;
    s.ball.pos_y = 395 * UNIT;
    assert!(s.check_teleport_collisions(TeleporterLocation::Bottom));
    s.ball.pos_y = 395 * UNIT - 1;
    assert!(!s.check_teleport_collisions(TeleporterLocation::Bottom));
}

#[test]
fn teleporters_carry_the_ball_across() {
    let mut s = fresh(PlayerID::Player2);
    s.ball.pos_x = 400 * UNIT;
    s.ball.pos_y = 3 * UNIT;
    s.teleport_ball();
    assert_eq!(s.ball.pos_y, 394 * UNIT);
    s.ball.pos_y = 397 * UNIT;
    s.teleport_ball();
    assert_eq!(s.ball.pos_y, UNIT);
    s.ball.pos_x = 100 * UNIT;
    s.ball.pos_y = 3 * UNIT;
    s.teleport_ball();
    assert_eq!(s.ball.pos_y, 3 * UNIT);
}

#[test]
fn teleported_ball_does_not_bounce_in_that_tick() {
    let mut s = fresh(PlayerID::Player2);
    s.ball.pos_x = 400 * UNIT;
    s.ball.pos_y = -2 * UNIT;
    s.ball.vel_x = 12 * UNIT;
    s.ball.vel_y = -4 * UNIT;
    assert!(s.is_wf());
    s.step_with(&idle(), 0);
    assert_eq!(s.ball.vel_y, -4 * UNIT);
    assert_eq!(s.ball.pos_y, 390 * UNIT);
    assert_eq!(s.ball.pos_x, 412 * UNIT);
}
