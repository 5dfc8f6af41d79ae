//! What holds of every game, proved from the definition of a tick.

use vstd::prelude::*;
use crate::ball::{lemma_deflection_is_clamped, BallView, MAX_DEFLECTION};
use crate::input::Input;
use crate::state::{lemma_tick_keeps_wf, GameView, LAST_ROW};
use crate::units::{magnitude, UNIT};

verus! {

/// One tick as it is asked of a game: what the players hold down, and
/// the row of a serve, should there be one.
pub struct Tick {
    pub input: Input,
    pub row: int,
}

/// The game after the ticks of `ticks`, taken in order.
pub open spec fn run(s: GameView, ticks: Seq<Tick>) -> GameView
    decreases ticks.len(),
{
    if ticks.len() == 0 {
        s
    } else {
        run(s, ticks.drop_last()).stepped(ticks.last().input, ticks.last().row)
    }
}

/// Whether every serve asked for in `ticks` is on a row of the
/// playfield.
pub open spec fn rows_on_field(ticks: Seq<Tick>) -> bool {
    forall|i: int| 0 <= i < ticks.len() ==> 0 <= (#[trigger] ticks[i]).row <= LAST_ROW
}

/// While the game goes on, a tick leaves the horizontal speed of the
/// ball as large as it was: it keeps its value or changes its sign,
/// whether or not a paddle returned the ball. The tick that ends the
/// game is left out, since it brings the ball to rest.
pub proof fn lemma_horizontal_speed_is_kept(s: GameView, input: Input, row: int)
    requires
        !s.game_over(),
        !s.stepped(input, row).game_over(),
    ensures
        magnitude(s.stepped(input, row).ball.vel_x) == magnitude(s.ball.vel_x),
        s.stepped(input, row).ball.vel_x == s.ball.vel_x || s.stepped(input, row).ball.vel_x
            == -s.ball.vel_x,
{
}

/// When the ball has reached a side edge, exactly one player gets
/// exactly one point: the left player if it is the right edge, else the
/// right player. The ball turns round and lies a serve inset away from
/// the edge that it now flies toward, on the row of the serve.
pub proof fn lemma_point_and_serve(s: GameView, row: int)
    requires
        s.left_scores() || s.right_scores(),
    ensures
        s.left_scores() ==> s.scored(row).player1_score == s.player1_score + 1 && s.scored(
            row,
        ).player2_score == s.player2_score,
        !s.left_scores() ==> s.scored(row).player2_score == s.player2_score + 1 && s.scored(
            row,
        ).player1_score == s.player1_score,
        s.scored(row).ball.vel_x == -s.ball.vel_x,
        s.scored(row).ball.pos_x == BallView::serve_x(s.scored(row).ball.vel_x),
        s.scored(row).ball.pos_y == row * UNIT,
        s.scored(row).ball.vel_y == s.ball.vel_y,
{
}

/// Without a ball on a side edge nothing is counted and nothing served.
pub proof fn lemma_no_point_without_edge(s: GameView, row: int)
    requires
        !s.left_scores(),
        !s.right_scores(),
    ensures
        s.scored(row) == s,
{
}

/// A whole tick in which the ball starts on a side edge: the point is
/// counted once, and the tick ends with the ball one tick of flight away
/// from its serve, or at rest at its serve if the point ended the game.
pub proof fn lemma_scoring_tick(s: GameView, input: Input, row: int)
    requires
        s.wf(),
        0 <= row <= LAST_ROW,
        s.left_scores() || s.right_scores(),
    ensures
        ({
            let t = s.stepped(input, row);
            &&& t.player1_score == s.player1_score + (if s.left_scores() { 1int } else { 0int })
            &&& t.player2_score == s.player2_score + (if s.left_scores() { 0int } else { 1int })
            &&& t.ball.pos_x == BallView::serve_x(-s.ball.vel_x) - s.ball.vel_x
            &&& t.ball.vel_x == (if t.game_over() { 0int } else { -s.ball.vel_x })
        }),
{
    lemma_tick_keeps_wf(s, input, row);
}

/// A ball that a paddle returns leaves with a vertical speed within the
/// largest deflection, whatever its speed and wherever it struck.
pub proof fn lemma_return_is_clamped(ball: BallView, reference_y: int)
    ensures
        -MAX_DEFLECTION <= ball.deflected(reference_y).vel_y <= MAX_DEFLECTION,
        ball.deflected(reference_y).vel_x == -ball.vel_x,
        ball.deflected(reference_y).pos_x == ball.pos_x,
        ball.deflected(reference_y).pos_y == ball.pos_y,
{
    lemma_deflection_is_clamped(ball.speed(), ball.pos_y - reference_y);
}

/// After the paddles have had their chance in a tick, a ball that one of
/// them returned has a vertical speed within the largest deflection.
pub proof fn lemma_reflection_is_clamped(s: GameView)
    requires
        s.left_returns() || s.left_reflected().right_returns(),
    ensures
        -MAX_DEFLECTION <= s.reflected().ball.vel_y <= MAX_DEFLECTION,
{
    lemma_return_is_clamped(s.ball, s.player1.reference_y());
    lemma_return_is_clamped(s.left_reflected().ball, s.player2.reference_y());
}

/// Once the game is over, a tick leaves it over and the ball at rest,
/// whatever the input.
pub proof fn lemma_game_over_is_kept(s: GameView, input: Input, row: int)
    requires
        s.game_over(),
    ensures
        s.stepped(input, row).game_over(),
        s.stepped(input, row).ball.vel_x == 0,
        s.stepped(input, row).ball.vel_y == 0,
{
}

/// Whenever a tick ends with the game over, it ends with the ball at
/// rest.
pub proof fn lemma_no_flight_after_the_end(s: GameView, input: Input, row: int)
    requires
        s.stepped(input, row).game_over(),
    ensures
        s.stepped(input, row).ball.vel_x == 0,
        s.stepped(input, row).ball.vel_y == 0,
{
}

/// Once the game is over it stays over: after any number of further
/// ticks, at least one, under any inputs, the game is over and the ball
/// at rest.
pub proof fn lemma_game_over_is_final(s: GameView, ticks: Seq<Tick>)
    requires
        s.game_over(),
        ticks.len() >= 1,
    ensures
        run(s, ticks).game_over(),
        run(s, ticks).ball.vel_x == 0,
        run(s, ticks).ball.vel_y == 0,
    decreases ticks.len(),
{
    let earlier = run(s, ticks.drop_last());
    if ticks.len() > 1 {
        lemma_game_over_is_final(s, ticks.drop_last());
    }
    lemma_game_over_is_kept(earlier, ticks.last().input, ticks.last().row);
}

/// A game that is over and holds what holds between ticks keeps its
/// score and its ball's place across the playfield through a tick.
pub proof fn lemma_game_over_changes_no_score(s: GameView, input: Input, row: int)
    requires
        s.wf(),
        s.game_over(),
    ensures
        s.stepped(input, row).player1_score == s.player1_score,
        s.stepped(input, row).player2_score == s.player2_score,
        s.stepped(input, row).ball.pos_x == s.ball.pos_x,
{
}

/// Any number of ticks keeps a game well formed, as long as every serve
/// is on a row of the playfield.
pub proof fn lemma_run_keeps_wf(s: GameView, ticks: Seq<Tick>)
    requires
        s.wf(),
        rows_on_field(ticks),
    ensures
        run(s, ticks).wf(),
    decreases ticks.len(),
{
    if ticks.len() > 0 {
        let earlier = ticks.drop_last();
        assert forall|i: int| 0 <= i < earlier.len() implies 0 <= (#[trigger] earlier[i]).row
            <= LAST_ROW by {
            assert(earlier[i] == ticks[i]);
        }
        lemma_run_keeps_wf(s, earlier);
        lemma_tick_keeps_wf(run(s, earlier), ticks.last().input, ticks.last().row);
    }
}

/// Points are never taken away, and a tick adds at most one in all.
pub proof fn lemma_scores_only_grow(s: GameView, input: Input, row: int)
    ensures
        s.stepped(input, row).player1_score >= s.player1_score,
        s.stepped(input, row).player2_score >= s.player2_score,
        s.stepped(input, row).player1_score + s.stepped(input, row).player2_score
            <= s.player1_score + s.player2_score + 1,
{
}

/// A tick moves neither the teleporters nor the paddles sideways, and
/// leaves the ball its radius, the paddles their players and controls.
pub proof fn lemma_fixtures_stay(s: GameView, input: Input, row: int)
    ensures
        s.stepped(input, row).teleporter_top == s.teleporter_top,
        s.stepped(input, row).teleporter_bottom == s.teleporter_bottom,
        s.stepped(input, row).ball.radius == s.ball.radius,
        s.stepped(input, row).player1 == s.player1.at(s.stepped(input, row).player1.pos_y),
        s.stepped(input, row).player2 == s.player2.at(s.stepped(input, row).player2.pos_y),
{
}

/// The row of the serve matters only in a tick that begins with the
/// ball on a side edge.
pub proof fn lemma_row_matters_only_on_a_point(s: GameView, input: Input, row: int, other: int)
    requires
        !s.left_scores(),
        !s.right_scores(),
    ensures
        s.stepped(input, row) == s.stepped(input, other),
{
}

} // verus!
