use rong::ball::Ball;
use rong::input::Input;
use rong::player::{Player, PlayerID};
use rong::scene::{decimal_text, numeral_text, Point, Rect, ScoreLabel};
use rong::state::MainState;
use rong::teleporter::{Teleporter, TeleporterLocation};
use rong::units::UNIT;

fn start(opponent: PlayerID) -> MainState {
    MainState::new(
        Player::new(PlayerID::Player1),
        Player::new(opponent),
        Ball::new(),
        Teleporter::new(TeleporterLocation::Top),
        Teleporter::new(TeleporterLocation::Bottom),
    )
}

fn about_to_win(left: bool) -> MainState {
    let mut s = start(PlayerID::Player2);
    s.player1.pos_y = 0;
    s.player2.pos_y = 0;
    s.ball.pos_y = 350 * UNIT;
    s.ball.vel_y = -2 * UNIT;
    if left {
        s.player1_score = 7;
        s.ball.pos_x = 803 * UNIT;
        s.ball.vel_x = 12 * UNIT;
    } else {
        s.player2_score = 7;
        s.ball.pos_x = -3 * UNIT;
        s.ball.vel_x = -12 * UNIT;
    }
    s
}

#[test]
fn seven_points_do_not_end_the_game() {
    let mut s = start(PlayerID::Player2);
    s.player1_score = 7;
    s.player2_score = 7;
    assert!(!s.is_game_over());
    assert!(s.is_wf());
    s.settle();
    assert_eq!((s.ball.vel_x, s.ball.vel_y), (12 * UNIT, UNIT));
}

#[test]
fn eighth_point_freezes_the_ball() {
    let mut s = about_to_win(true);
    assert!(s.is_wf());
    let idle = Input { p1_up: false, p1_down: false, p2_up: false, p2_down: false };
    s.step_with(&idle, 210);
    assert_eq!((s.player1_score, s.player2_score), (8, 0));
    assert!(s.is_game_over());
    assert_eq!((s.ball.vel_x, s.ball.vel_y), (0, 0));
    assert_eq!((s.ball.pos_x, s.ball.pos_y), (68 * UNIT, 208 * UNIT));
    assert!(s.is_wf());
}

#[test]
fn game_over_is_terminal_under_every_input() {
    for left in [true, false] {
        let mut s = about_to_win(left);
        let idle = Input { p1_up: false, p1_down: false, p2_up: false, p2_down: false };
        s.step(&idle);
        assert!(s.is_game_over());
        let scores = (s.player1_score, s.player2_score);
        let ball = (s.ball.pos_x, s.ball.pos_y);
        for n in 0..64 {
            let held = Input {
                p1_up: n & 1 != 0,
                p1_down: n & 2 != 0,
                p2_up: n & 4 != 0,
                p2_down: n & 8 != 0,
            };
            s.step(&held);
            assert!(s.is_game_over());
            assert!(s.is_wf());
            assert_eq!((s.ball.vel_x, s.ball.vel_y), (0, 0));
            assert_eq!((s.player1_score, s.player2_score), scores);
            assert_eq!((s.ball.pos_x, s.ball.pos_y), ball);
        }
    }
}

#[test]
fn paddles_still_move_after_the_end() {
    let mut s = about_to_win(false);
    let down = Input { p1_up: false, p1_down: true, p2_up: false, p2_down: false };
    s.step_with(&down, 5);
    assert!(s.is_game_over());
    assert_eq!(s.player1.pos_y, 6 * UNIT);
    s.step_with(&down, 5);
    assert_eq!(s.player1.pos_y, 12 * UNIT);
}

#[test]
fn states_that_cannot_be_stepped_are_told_apart() {
    let mut s = start(PlayerID::Comp);
    s.ball.vel_y = 5 * UNIT + 1;
    assert!(!s.is_wf());
    let mut s = start(PlayerID::Comp);
    s.ball.vel_x = 80 * UNIT;
    assert!(!s.is_wf());
    let mut s = start(PlayerID::Comp);
    s.player2.pos_y = 306 * UNIT + 1;
    assert!(!s.is_wf());
    let mut s = start(PlayerID::Comp);
    s.player1_score = 8;
    assert!(!s.is_wf());
    s.ball.vel_x = 0;
    s.ball.vel_y = 0;
    assert!(s.is_wf());
    s.ball.pos_x = 800 * UNIT;
    assert!(!s.is_wf());
    let mut s = start(PlayerID::Comp);
    s.ball.pos_y = -11 * UNIT;
    s.ball.vel_y = -UNIT;
    assert!(s.is_wf());
    s.ball.vel_y = UNIT;
    assert!(!s.is_wf());
    s.ball.pos_y = 411 * UNIT;
    assert!(s.is_wf());
    s.ball.vel_y = -UNIT;
    assert!(!s.is_wf());
    let mut s = start(PlayerID::Comp);
    s.teleporter_top.pos_x = 0;
    assert!(!s.is_wf());
}

#[test]
fn numerals() {
    assert_eq!(decimal_text(0), "0");
    assert_eq!(decimal_text(7), "7");
    assert_eq!(decimal_text(10), "10");
    assert_eq!(decimal_text(4_294_967_295), "4294967295");
    assert_eq!(numeral_text(0), "0");
    assert_eq!(numeral_text(305), "305");
    assert_eq!(numeral_text(-12), "-12");
    assert_eq!(numeral_text(i32::MIN), "-2147483648");
    assert_eq!(numeral_text(i32::MAX), "2147483647");
}

#[test]
fn score_labels() {
    assert_eq!(ScoreLabel::Points(3).text(), "3");
    assert_eq!(ScoreLabel::Won.text(), "W");
    assert_eq!(ScoreLabel::Lost.text(), "L");
    let mut s = start(PlayerID::Comp);
    s.player1_score = 7;
    s.player2_score = 2;
    assert_eq!(s.player1_label(), ScoreLabel::Points(7));
    assert_eq!(s.player2_label(), ScoreLabel::Points(2));
    s.player1_score = 8;
    assert_eq!(s.player1_label(), ScoreLabel::Won);
    assert_eq!(s.player2_label(), ScoreLabel::Lost);
    s.player1_score = 4;
    s.player2_score = 8;
    assert_eq!(s.player1_label(), ScoreLabel::Lost);
    assert_eq!(s.player2_label(), ScoreLabel::Won);
    s.player1_score = 9;
    assert_eq!(s.player1_label(), ScoreLabel::Lost);
    assert_eq!(s.player2_label(), ScoreLabel::Won);
}

#[test]
fn scene_of_the_opening_game() {
    let scene = start(PlayerID::Comp).scene();
    assert_eq!(scene.paddle1, Rect { x: 20 * UNIT, y: 150 * UNIT, w: 40 * UNIT, h: 200 * UNIT });
    assert_eq!(scene.paddle2, Rect { x: 760 * UNIT, y: 150 * UNIT, w: 40 * UNIT, h: 200 * UNIT });
    assert_eq!(scene.teleporter_top, Rect { x: 325 * UNIT, y: 0, w: 300 * UNIT, h: 5 * UNIT });
    assert_eq!(
        scene.teleporter_bottom,
        Rect { x: 325 * UNIT, y: 395 * UNIT, w: 300 * UNIT, h: 5 * UNIT }
    );
    assert_eq!(scene.ball.centre, Point { x: 400 * UNIT, y: 200 * UNIT });
    assert_eq!(scene.ball.radius, 10 * UNIT);
    assert_eq!(scene.divider.from, Point { x: 400 * UNIT, y: -200 * UNIT });
    assert_eq!(scene.divider.to, Point { x: 400 * UNIT, y: 800 * UNIT });
    assert_eq!(scene.divider.width, 3 * UNIT);
    assert_eq!(scene.divider_at, Point { x: 400 * UNIT, y: 200 * UNIT });
    assert_eq!(scene.player1_score, ScoreLabel::Points(0));
    assert_eq!(scene.player2_score, ScoreLabel::Points(0));
    assert_eq!(scene.player1_score_at, Point { x: 650 * UNIT, y: 50 * UNIT });
    assert_eq!(scene.player2_score_at, Point { x: 900 * UNIT, y: 50 * UNIT });
}
