//! The whole game and the tick that advances it.

use vstd::prelude::*;
use crate::ball::{lemma_deflection_is_clamped, Ball, BallView, MAX_DEFLECTION, SERVE_INSET};
use crate::input::Input;
use crate::player::{Player, PlayerID, PlayerView};
use crate::random::random_between;
use crate::teleporter::{Teleporter, TeleporterLocation, TeleporterView};
use crate::units::{
    fits, magnitude, PADDLE_HEIGHT, PADDLE_SPEED, PADDLE_WIDTH, TELEPORTER_HEIGHT,
    TELEPORTER_WIDTH, UNIT, WINDOW_HEIGHT, WINDOW_WIDTH,
};

verus! {

/// The game is over once a player has more points than this.
pub const WINNING_SCORE: i32 = 7;

/// The lowest row a ball can be served on; the highest is row 0.
pub const LAST_ROW: i32 = 400;

/// How far beyond the top or bottom edge the ball can get: a paddle can
/// strike it up to one paddle speed outside, and send it on by up to the
/// largest deflection.
pub const OVERSHOOT: i64 = PADDLE_SPEED + MAX_DEFLECTION;

/// Everything that a game consists of.
#[derive(Clone, Copy, Debug)]
pub struct MainState {
    pub player1: Player,
    pub player2: Player,
    pub ball: Ball,
    pub player1_score: i32,
    pub player2_score: i32,
    pub teleporter_top: Teleporter,
    pub teleporter_bottom: Teleporter,
}

/// The game as the contracts see it, with unbounded numbers.
pub struct GameView {
    pub player1: PlayerView,
    pub player2: PlayerView,
    pub ball: BallView,
    pub player1_score: int,
    pub player2_score: int,
    pub teleporter_top: TeleporterView,
    pub teleporter_bottom: TeleporterView,
}

impl View for MainState {
    type V = GameView;

    open spec fn view(&self) -> GameView {
        GameView {
            player1: self.player1@,
            player2: self.player2@,
            ball: self.ball@,
            player1_score: self.player1_score as int,
            player2_score: self.player2_score as int,
            teleporter_top: self.teleporter_top@,
            teleporter_bottom: self.teleporter_bottom@,
        }
    }
}

impl GameView {
    /// A game of these parts in which nobody has a point yet.
    pub open spec fn assembled(
        player1: PlayerView,
        player2: PlayerView,
        ball: BallView,
        teleporter_top: TeleporterView,
        teleporter_bottom: TeleporterView,
    ) -> GameView {
        GameView {
            player1,
            player2,
            ball,
            player1_score: 0,
            player2_score: 0,
            teleporter_top,
            teleporter_bottom,
        }
    }

    /// The game before the first tick, with `opponent` at the right
    /// paddle.
    pub open spec fn opening(opponent: PlayerID) -> GameView {
        Self::assembled(
            PlayerView::opening(PlayerID::Player1),
            PlayerView::opening(opponent),
            BallView::opening(),
            TeleporterView::opening(TeleporterLocation::Top),
            TeleporterView::opening(TeleporterLocation::Bottom),
        )
    }

    /// A player has more points than the winning score: the game has
    /// ended, and stays so.
    pub open spec fn game_over(self) -> bool {
        self.player1_score > WINNING_SCORE || self.player2_score > WINNING_SCORE
    }

    /// This game with `ball` for its ball.
    pub open spec fn with_ball(self, ball: BallView) -> GameView {
        GameView { ball, ..self }
    }

    /// This game with its ball at height `y`.
    pub open spec fn with_ball_at(self, y: int) -> GameView {
        GameView { ball: BallView { pos_y: y, ..self.ball }, ..self }
    }

    /// The game after both paddles have moved: the left one as the
    /// controls ask, the right one too unless the computer plays it, which
    /// follows the ball.
    pub open spec fn paddles_moved(self, input: Input) -> GameView {
        GameView {
            player1: self.player1.steered(input),
            player2: self.player2.moved(input, self.ball.pos_y),
            ..self
        }
    }

    /// Whether the ball is in the zone along `location`: level with the
    /// zone or beyond its edge, and within its span.
    pub open spec fn in_teleporter(self, location: TeleporterLocation) -> bool {
        match location {
            TeleporterLocation::Top => {
                &&& self.ball.pos_y <= TELEPORTER_HEIGHT
                &&& self.teleporter_top.spans(self.ball.pos_x)
            },
            TeleporterLocation::Bottom => {
                &&& self.ball.pos_y >= WINDOW_HEIGHT - TELEPORTER_HEIGHT
                &&& self.teleporter_bottom.spans(self.ball.pos_x)
            },
        }
    }

    /// The game after the teleporters have acted: a ball in the top zone
    /// comes out one unit above the bottom zone, and a ball that is then
    /// in the bottom zone comes out one unit below the top zone's upper
    /// edge.
    pub open spec fn teleported(self) -> GameView {
        let lifted = if self.in_teleporter(TeleporterLocation::Top) {
            self.with_ball_at(self.teleporter_bottom.pos_y - UNIT)
        } else {
            self
        };
        if lifted.in_teleporter(TeleporterLocation::Bottom) {
            lifted.with_ball_at(lifted.teleporter_top.pos_y + UNIT)
        } else {
            lifted
        }
    }

    /// The game after the test on the top and bottom edges.
    pub open spec fn bounced(self) -> GameView {
        self.with_ball(self.ball.bounced())
    }

    /// The ball is on or beyond the right edge: a point for the left
    /// player.
    pub open spec fn left_scores(self) -> bool {
        self.ball.pos_x >= WINDOW_WIDTH
    }

    /// The ball is on or beyond the left edge: a point for the right
    /// player.
    pub open spec fn right_scores(self) -> bool {
        self.ball.pos_x <= 0
    }

    /// The game after a point for the left player, with the serve on row
    /// `row`.
    pub open spec fn left_point(self, row: int) -> GameView {
        GameView {
            player1_score: self.player1_score + 1,
            ball: self.ball.served(row),
            ..self
        }
    }

    /// The game after a point for the right player, with the serve on
    /// row `row`.
    pub open spec fn right_point(self, row: int) -> GameView {
        GameView {
            player2_score: self.player2_score + 1,
            ball: self.ball.served(row),
            ..self
        }
    }

    /// The game after the test on the side edges: first for a point of
    /// the left player, then, on what that left, for a point of the right
    /// player. A serve is on row `row`.
    pub open spec fn scored(self, row: int) -> GameView {
        let first = if self.left_scores() {
            self.left_point(row)
        } else {
            self
        };
        if first.right_scores() {
            first.right_point(row)
        } else {
            first
        }
    }

    /// Whether the ball is on the striking face of the paddle that
    /// `player_id` stands for: of the left paddle for the left player, of
    /// the right paddle for anyone else. The left face is half a paddle
    /// width wide, the right face a whole one.
    pub open spec fn strikes(self, player_id: PlayerID) -> bool {
        if player_id == PlayerID::Player1 {
            self.player1.struck_at(self.ball.pos_x, self.ball.pos_y, PADDLE_WIDTH / 2)
        } else {
            self.player2.struck_at(self.ball.pos_x, self.ball.pos_y, PADDLE_WIDTH as int)
        }
    }

    /// The ball is on the left paddle's face and on its way to the left.
    pub open spec fn left_returns(self) -> bool {
        self.strikes(PlayerID::Player1) && self.ball.vel_x < 0
    }

    /// The ball is on the right paddle's face and on its way to the
    /// right.
    pub open spec fn right_returns(self) -> bool {
        self.strikes(PlayerID::Player2) && self.ball.vel_x > 0
    }

    /// The game after the left paddle has had its chance to return the
    /// ball.
    pub open spec fn left_reflected(self) -> GameView {
        if self.left_returns() {
            self.with_ball(self.ball.deflected(self.player1.reference_y()))
        } else {
            self
        }
    }

    /// The game after the right paddle has had its chance to return the
    /// ball.
    pub open spec fn right_reflected(self) -> GameView {
        if self.right_returns() {
            self.with_ball(self.ball.deflected(self.player2.reference_y()))
        } else {
            self
        }
    }

    /// The game after both paddles have had their chance to return the
    /// ball, the left one first.
    pub open spec fn reflected(self) -> GameView {
        self.left_reflected().right_reflected()
    }

    /// The game after the ball has flown for one tick.
    pub open spec fn flown(self) -> GameView {
        self.with_ball(self.ball.advanced())
    }

    /// The game after the test for its end: once it is over the ball is
    /// at rest.
    pub open spec fn settled(self) -> GameView {
        if self.game_over() {
            self.with_ball(self.ball.frozen())
        } else {
            self
        }
    }

    /// The game as it stands after the side edges have been tested in a
    /// tick under `input`.
    pub open spec fn served_in_tick(self, input: Input, row: int) -> GameView {
        self.paddles_moved(input).teleported().bounced().scored(row)
    }

    /// The game one tick later, under `input`, with a serve, should there
    /// be one, on row `row`.
    pub open spec fn stepped(self, input: Input, row: int) -> GameView {
        self.served_in_tick(input, row).reflected().flown().settled()
    }

    /// Whether the arithmetic of moving the paddles stays within what a
    /// coordinate can hold.
    pub open spec fn paddles_move_in_range(self) -> bool {
        self.player2.player_id == PlayerID::Comp ==> self.player2.tracks_in_range(self.ball.pos_y)
    }

    /// Whether the arithmetic of the teleporters stays within what a
    /// coordinate can hold.
    pub open spec fn teleports_in_range(self) -> bool {
        &&& fits(self.teleporter_top.pos_x + TELEPORTER_WIDTH)
        &&& fits(self.teleporter_top.pos_y + UNIT)
        &&& fits(self.teleporter_bottom.pos_x + TELEPORTER_WIDTH)
        &&& fits(self.teleporter_bottom.pos_y - UNIT)
    }

    /// Whether a point can be counted and the ball served within what
    /// the numbers can hold.
    pub open spec fn scores_in_range(self) -> bool {
        &&& self.player1_score < i32::MAX
        &&& self.player2_score < i32::MAX
        &&& fits(-self.ball.vel_x)
    }

    /// Whether the arithmetic of the paddles' returns stays within what
    /// a coordinate can hold.
    pub open spec fn reflects_in_range(self) -> bool {
        &&& self.player1.face_in_range(PADDLE_WIDTH / 2)
        &&& self.player2.face_in_range(PADDLE_WIDTH as int)
        &&& self.left_returns() ==> self.ball.deflects_in_range(self.player1.reference_y())
        &&& self.left_reflected().right_returns() ==> self.left_reflected().ball.deflects_in_range(
            self.player2.reference_y(),
        )
    }

    /// The paddles stand at their sides and within their reach.
    pub open spec fn paddles_in_place(self) -> bool {
        &&& self.player1.player_id == PlayerID::Player1
        &&& self.player1.pos_x == PADDLE_WIDTH / 2
        &&& self.player1.in_reach()
        &&& self.player2.player_id != PlayerID::Player1
        &&& self.player2.pos_x == WINDOW_WIDTH - PADDLE_WIDTH
        &&& self.player2.in_reach()
    }

    /// The teleporters lie where they were built.
    pub open spec fn teleporters_in_place(self) -> bool {
        &&& self.teleporter_top == TeleporterView::opening(TeleporterLocation::Top)
        &&& self.teleporter_bottom == TeleporterView::opening(TeleporterLocation::Bottom)
    }

    /// The ball is no faster than a game can make it: sideways it stays
    /// under a serve inset per tick, so that a served ball is still on
    /// the playfield after its first tick, and up or down within the
    /// largest deflection.
    pub open spec fn ball_in_pace(self) -> bool {
        &&& magnitude(self.ball.vel_x) < SERVE_INSET
        &&& magnitude(self.ball.vel_y) <= MAX_DEFLECTION
    }

    /// The ball beyond the top or bottom edge is within the overshoot,
    /// and so is the place it came from if it is on its way back.
    pub open spec fn ball_in_bounds(self) -> bool {
        let y = self.ball.pos_y;
        let v = self.ball.vel_y;
        &&& y <= 0 ==> -OVERSHOOT <= (if v > 0 { y - v } else { y })
        &&& y >= WINDOW_HEIGHT ==> (if v < 0 { y - v } else { y }) <= WINDOW_HEIGHT + OVERSHOOT
    }

    /// What holds of a game between any two ticks.
    pub open spec fn wf(self) -> bool {
        &&& self.paddles_in_place()
        &&& self.teleporters_in_place()
        &&& self.ball_in_pace()
        &&& self.ball_in_bounds()
        &&& 0 <= self.player1_score <= WINNING_SCORE + 1
        &&& 0 <= self.player2_score <= WINNING_SCORE + 1
        &&& self.game_over() ==> {
            &&& self.ball.vel_x == 0
            &&& self.ball.vel_y == 0
            &&& 0 < self.ball.pos_x < WINDOW_WIDTH
        }
    }

    /// What holds of a game within a tick, once the side edges have been
    /// tested: enough for the rest of the tick to stay within what the
    /// numbers can hold.
    pub open spec fn poised(self) -> bool {
        &&& self.paddles_in_place()
        &&& self.ball_in_pace()
        &&& 0 < self.ball.pos_x < WINDOW_WIDTH
        &&& -OVERSHOOT <= self.ball.pos_y <= WINDOW_HEIGHT + OVERSHOOT
    }
}

/// The game before the first tick holds what holds between ticks,
/// whoever plays the right paddle.
pub proof fn lemma_opening_is_wf(opponent: PlayerID)
    requires
        opponent != PlayerID::Player1,
    ensures
        GameView::opening(opponent).wf(),
{
}

/// A tick keeps a game well formed: from a state that holds between
/// ticks, under any input and with a serve on any row of the playfield,
/// the state within the tick is poised and the state after it holds
/// between ticks again.
pub proof fn lemma_tick_keeps_wf(s: GameView, input: Input, row: int)
    requires
        s.wf(),
        0 <= row <= LAST_ROW,
    ensures
        s.served_in_tick(input, row).poised(),
        s.stepped(input, row).wf(),
{
    let mid = s.served_in_tick(input, row);
    let left = mid.left_reflected();
    lemma_deflection_is_clamped(mid.ball.speed(), mid.ball.pos_y - mid.player1.reference_y());
    lemma_deflection_is_clamped(left.ball.speed(), left.ball.pos_y - left.player2.reference_y());
}

/// A ball in pace that is on the face of a paddle within its reach can
/// be deflected there within what a coordinate can hold.
pub proof fn lemma_strike_in_range(ball: BallView, paddle: PlayerView, width: int)
    requires
        paddle.in_reach(),
        paddle.struck_at(ball.pos_x, ball.pos_y, width),
        magnitude(ball.vel_x) < SERVE_INSET,
        magnitude(ball.vel_y) <= MAX_DEFLECTION,
    ensures
        ball.deflects_in_range(paddle.reference_y()),
{
    let speed = ball.speed();
    let offset = ball.pos_y - paddle.reference_y();
    assert(-4_250_000_000 <= speed * offset <= 4_250_000_000) by (nonlinear_arith)
        requires
            0 <= speed <= 85_000,
            -50_000 <= offset <= 50_000,
    ;
}

/// A poised game can finish its tick within what the numbers can hold.
pub proof fn lemma_poised_in_range(s: GameView)
    requires
        s.poised(),
    ensures
        s.reflects_in_range(),
        s.reflected().ball.advances_in_range(),
{
    if s.left_returns() {
        lemma_strike_in_range(s.ball, s.player1, PADDLE_WIDTH / 2);
    }
    let left = s.left_reflected();
    lemma_deflection_is_clamped(s.ball.speed(), s.ball.pos_y - s.player1.reference_y());
    if left.right_returns() {
        lemma_strike_in_range(left.ball, left.player2, PADDLE_WIDTH as int);
    }
    lemma_deflection_is_clamped(left.ball.speed(), left.ball.pos_y - left.player2.reference_y());
}

impl MainState {
    /// A game of these parts in which nobody has a point yet.
    pub fn new(
        player1: Player,
        player2: Player,
        ball: Ball,
        teleporter_top: Teleporter,
        teleporter_bottom: Teleporter,
    ) -> (s: MainState)
        ensures
            s@ == GameView::assembled(
                player1@,
                player2@,
                ball@,
                teleporter_top@,
                teleporter_bottom@,
            ),
    {
        MainState {
            player1,
            player2,
            ball,
            player1_score: 0,
            player2_score: 0,
            teleporter_top,
            teleporter_bottom,
        }
    }

    /// Whether the paddles stand at their sides and within their reach.
    fn has_paddles_in_place(&self) -> (ok: bool)
        ensures
            ok == self@.paddles_in_place(),
    {
        let lowest: i64 = WINDOW_HEIGHT - PADDLE_HEIGHT / 2 + PADDLE_SPEED;
        self.player1.player_id == PlayerID::Player1 && self.player1.pos_x == PADDLE_WIDTH / 2
            && -PADDLE_SPEED <= self.player1.pos_y && self.player1.pos_y <= lowest
            && self.player2.player_id != PlayerID::Player1 && self.player2.pos_x == WINDOW_WIDTH
            - PADDLE_WIDTH && -PADDLE_SPEED <= self.player2.pos_y && self.player2.pos_y <= lowest
    }

    /// Whether the teleporters lie where they were built.
    fn has_teleporters_in_place(&self) -> (ok: bool)
        ensures
            ok == self@.teleporters_in_place(),
    {
        let left: i64 = WINDOW_WIDTH / 2 - TELEPORTER_WIDTH / 4;
        let top = &self.teleporter_top;
        let bottom = &self.teleporter_bottom;
        top.location == TeleporterLocation::Top && top.pos_x == left && top.pos_y == 0 && top.width
            == TELEPORTER_WIDTH && top.height == TELEPORTER_HEIGHT && bottom.location
            == TeleporterLocation::Bottom && bottom.pos_x == left && bottom.pos_y == WINDOW_HEIGHT
            - TELEPORTER_HEIGHT && bottom.width == TELEPORTER_WIDTH && bottom.height
            == TELEPORTER_HEIGHT
    }

    /// Whether the ball is in pace and, beyond the top or bottom edge,
    /// within the overshoot.
    fn has_ball_in_order(&self) -> (ok: bool)
        ensures
            ok == (self@.ball_in_pace() && self@.ball_in_bounds()),
    {
        let y: i64 = self.ball.pos_y;
        let v: i64 = self.ball.vel_y;
        let in_pace = -SERVE_INSET < self.ball.vel_x && self.ball.vel_x < SERVE_INSET
            && -MAX_DEFLECTION <= v && v <= MAX_DEFLECTION;
        in_pace && (y > 0 || (y >= -OVERSHOOT && (v <= 0 || y - v >= -OVERSHOOT))) && (y
            < WINDOW_HEIGHT || (y <= WINDOW_HEIGHT + OVERSHOOT && (v >= 0 || y - v <= WINDOW_HEIGHT
            + OVERSHOOT)))
    }

    /// Whether the game holds what holds between any two ticks, so that
    /// it can be stepped.
    pub fn is_wf(&self) -> (ok: bool)
        ensures
            ok == self@.wf(),
    {
        let scores_in_order = 0 <= self.player1_score && self.player1_score <= WINNING_SCORE + 1
            && 0 <= self.player2_score && self.player2_score <= WINNING_SCORE + 1;
        let at_rest = self.ball.vel_x == 0 && self.ball.vel_y == 0 && 0 < self.ball.pos_x
            && self.ball.pos_x < WINDOW_WIDTH;
        self.has_paddles_in_place() && self.has_teleporters_in_place() && self.has_ball_in_order()
            && scores_in_order && (!self.is_game_over() || at_rest)
    }

    /// Whether the game has ended.
    pub fn is_game_over(&self) -> (over: bool)
        ensures
            over == self@.game_over(),
    {
        self.player1_score > WINNING_SCORE || self.player2_score > WINNING_SCORE
    }

    /// Whether the ball is on the striking face of the paddle that
    /// `player_id` stands for.
    pub fn check_paddle_collisions(&self, player_id: PlayerID) -> (hit: bool)
        requires
            player_id == PlayerID::Player1 ==> self.player1@.face_in_range(PADDLE_WIDTH / 2),
            player_id != PlayerID::Player1 ==> self.player2@.face_in_range(PADDLE_WIDTH as int),
        ensures
            hit == self@.strikes(player_id),
    {
        if player_id == PlayerID::Player1 {
            self.ball.pos_x >= self.player1.pos_x
                && self.ball.pos_x <= self.player1.pos_x + PADDLE_WIDTH / 2
                && self.ball.pos_y >= self.player1.pos_y
                && self.ball.pos_y <= self.player1.pos_y + PADDLE_HEIGHT / 2
        } else {
            self.ball.pos_x >= self.player2.pos_x
                && self.ball.pos_x <= self.player2.pos_x + PADDLE_WIDTH
                && self.ball.pos_y >= self.player2.pos_y
                && self.ball.pos_y <= self.player2.pos_y + PADDLE_HEIGHT / 2
        }
    }

    /// Whether the ball is in the teleporter zone along `location`.
    pub fn check_teleport_collisions(&self, location: TeleporterLocation) -> (hit: bool)
        requires
            location == TeleporterLocation::Top ==> fits(
                self.teleporter_top.pos_x + TELEPORTER_WIDTH,
            ),
            location == TeleporterLocation::Bottom ==> fits(
                self.teleporter_bottom.pos_x + TELEPORTER_WIDTH,
            ),
        ensures
            hit == self@.in_teleporter(location),
    {
        if location == TeleporterLocation::Top {
            self.ball.pos_y <= TELEPORTER_HEIGHT && self.ball.pos_x >= self.teleporter_top.pos_x
                && self.ball.pos_x <= self.teleporter_top.pos_x + TELEPORTER_WIDTH
        } else {
            self.ball.pos_y >= WINDOW_HEIGHT - TELEPORTER_HEIGHT && self.ball.pos_x
                >= self.teleporter_bottom.pos_x && self.ball.pos_x <= self.teleporter_bottom.pos_x
                + TELEPORTER_WIDTH
        }
    }

    /// Moves both paddles for one tick.
    pub fn move_paddles(&mut self, input: &Input)
        requires
            old(self)@.paddles_move_in_range(),
        ensures
            final(self)@ == old(self)@.paddles_moved(*input),
    {
        self.player1.steer(input);
        self.player2.advance(input, self.ball.pos_y);
    }

    /// Lets the teleporters carry the ball across.
    pub fn teleport_ball(&mut self)
        requires
            old(self)@.teleports_in_range(),
        ensures
            final(self)@ == old(self)@.teleported(),
    {
        if self.check_teleport_collisions(TeleporterLocation::Top) {
            self.ball.pos_y = self.teleporter_bottom.pos_y - UNIT;
        }
        if self.check_teleport_collisions(TeleporterLocation::Bottom) {
            self.ball.pos_y = self.teleporter_top.pos_y + UNIT;
        }
    }

    /// Turns the ball round and serves it on a row drawn at random.
    pub fn reset_ball(&mut self)
        requires
            fits(-old(self).ball.vel_x),
        ensures
            exists|row: int|
                0 <= row <= LAST_ROW && final(self)@ == old(self)@.with_ball(
                    #[trigger] old(self)@.ball.served(row),
                ),
    {
        let row = random_between(0, LAST_ROW);
        self.ball.serve(row);
        assert(self@ == old(self)@.with_ball(old(self)@.ball.served(row as int)));
    }

    /// Counts a point for the player whose far edge the ball has reached,
    /// and serves the ball on row `row`.
    pub fn score_with(&mut self, row: i32)
        requires
            old(self)@.scores_in_range(),
        ensures
            final(self)@ == old(self)@.scored(row as int),
    {
        if self.ball.pos_x >= WINDOW_WIDTH {
            self.player1_score = self.player1_score + 1;
            self.ball.serve(row);
        }
        if self.ball.pos_x <= 0 {
            self.player2_score = self.player2_score + 1;
            self.ball.serve(row);
        }
    }

    /// Counts a point for the player whose far edge the ball has reached,
    /// and serves the ball on a row drawn at random.
    pub fn score(&mut self)
        requires
            old(self)@.scores_in_range(),
        ensures
            exists|row: int| 0 <= row <= LAST_ROW && final(self)@ == #[trigger] old(self)@.scored(row),
    {
        let ghost mut row: int = 0;
        if self.ball.pos_x >= WINDOW_WIDTH {
            self.player1_score = self.player1_score + 1;
            let ghost before = self@;
            self.reset_ball();
            proof {
                row = choose|row: int|
                    0 <= row <= LAST_ROW && self@ == before.with_ball(
                        #[trigger] before.ball.served(row),
                    );
            }
        }
        if self.ball.pos_x <= 0 {
            self.player2_score = self.player2_score + 1;
            let ghost before = self@;
            self.reset_ball();
            proof {
                row = choose|row: int|
                    0 <= row <= LAST_ROW && self@ == before.with_ball(
                        #[trigger] before.ball.served(row),
                    );
            }
        }
        assert(self@ == old(self)@.scored(row));
    }

    /// Lets each paddle return a ball that is on its face and on its way
    /// toward it, the left paddle first.
    pub fn reflect_ball(&mut self)
        requires
            old(self)@.reflects_in_range(),
        ensures
            final(self)@ == old(self)@.reflected(),
    {
        if self.check_paddle_collisions(PlayerID::Player1) {
            if self.ball.vel_x < 0 {
                self.ball.deflect(self.player1.pos_y + PADDLE_HEIGHT / 4);
            }
        }
        if self.check_paddle_collisions(PlayerID::Player2) {
            if self.ball.vel_x > 0 {
                self.ball.deflect(self.player2.pos_y + PADDLE_HEIGHT / 4);
            }
        }
    }

    /// Brings the ball to rest if the game is over.
    pub fn settle(&mut self)
        ensures
            final(self)@ == old(self)@.settled(),
    {
        if self.player1_score > WINNING_SCORE {
            self.ball.freeze();
        }
        if self.player2_score > WINNING_SCORE {
            self.ball.freeze();
        }
    }

    /// Advances the game by one tick under `input`, with a serve, should
    /// there be one, on row `row`.
    pub fn step_with(&mut self, input: &Input, row: i32)
        requires
            old(self)@.wf(),
            0 <= row <= LAST_ROW,
        ensures
            final(self)@ == old(self)@.stepped(*input, row as int),
            final(self)@.wf(),
    {
        proof {
            lemma_tick_keeps_wf(old(self)@, *input, row as int);
        }
        self.move_paddles(input);
        self.teleport_ball();
        self.ball.bounce();
        self.score_with(row);
        proof {
            lemma_poised_in_range(self@);
        }
        self.reflect_ball();
        self.ball.advance();
        self.settle();
    }

    /// Advances the game by one tick under `input`. A serve, should there
    /// be one, is on a row drawn at random.
    pub fn step(&mut self, input: &Input)
        requires
            old(self)@.wf(),
        ensures
            final(self)@.wf(),
            exists|row: int|
                0 <= row <= LAST_ROW && final(self)@ == #[trigger] old(self)@.stepped(*input, row),
            old(self)@.game_over() ==> final(self)@.game_over(),
            final(self)@.game_over() ==> final(self).ball.vel_x == 0 && final(self).ball.vel_y == 0,
            !final(self)@.game_over() ==> magnitude(final(self).ball.vel_x as int) == magnitude(
                old(self).ball.vel_x as int,
            ),
    {
        self.move_paddles(input);
        self.teleport_ball();
        self.ball.bounce();
        let ghost before = self@;
        self.score();
        let ghost row = choose|row: int|
            0 <= row <= LAST_ROW && self@ == #[trigger] before.scored(row);
        proof {
            lemma_tick_keeps_wf(old(self)@, *input, row);
            lemma_poised_in_range(self@);
        }
        self.reflect_ball();
        self.ball.advance();
        self.settle();
        assert(self@ == old(self)@.stepped(*input, row));
    }
}

} // verus!
