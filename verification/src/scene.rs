//! What a renderer is given to show after each tick.
//!
//! The game is shown in a window twice as wide and twice as high as the
//! playfield. Every shape is laid out in playfield measures and then
//! displaced by its own position, which puts it at twice its position in
//! the window and leaves it its size.

use vstd::prelude::*;
use vstd::string::StringExecFns;
use crate::state::{MainState, WINNING_SCORE};
use crate::units::{PADDLE_HEIGHT, PADDLE_WIDTH};

verus! {

/// Width of the line that divides the playfield.
pub const DIVIDER_WIDTH: i64 = 3_000;

/// Where the dividing line runs across the playfield.
pub const DIVIDER_X: i64 = 400_000;

/// Where the dividing line begins, above the playfield.
pub const DIVIDER_TOP: i64 = -200_000;

/// Where the dividing line ends, below the playfield.
pub const DIVIDER_BOTTOM: i64 = 800_000;

/// How far down the dividing line is displaced.
pub const DIVIDER_DROP: i64 = 200_000;

/// Where in the window the left player's score begins.
pub const LEFT_SCORE_X: i64 = 650_000;

/// Where in the window the right player's score begins.
pub const RIGHT_SCORE_X: i64 = 900_000;

/// How far below the window's top edge the scores begin.
pub const SCORE_Y: i64 = 50_000;

/// Height of the letters of a score.
pub const SCORE_SIZE: i64 = 100_000;

/// A point.
#[derive(Clone, Copy, Debug, PartialEq, Eq, Structural)]
pub struct Point {
    pub x: i64,
    pub y: i64,
}

/// A rectangle, by its left and top edges and its size.
#[derive(Clone, Copy, Debug, PartialEq, Eq, Structural)]
pub struct Rect {
    pub x: i64,
    pub y: i64,
    pub w: i64,
    pub h: i64,
}

/// A disc, by its centre and its radius.
#[derive(Clone, Copy, Debug, PartialEq, Eq, Structural)]
pub struct Disc {
    pub centre: Point,
    pub radius: i64,
}

/// A straight line of some width between two points.
#[derive(Clone, Copy, Debug, PartialEq, Eq, Structural)]
pub struct Line {
    pub from: Point,
    pub to: Point,
    pub width: i64,
}

/// What is shown in the place of a player's score.
#[derive(Clone, Copy, Debug, PartialEq, Eq, Structural)]
pub enum ScoreLabel {
    /// The points so far, while the game goes on.
    Points(i32),
    /// The mark of the winner.
    Won,
    /// The mark of the loser.
    Lost,
}

/// Everything a renderer is given: the paddles, the teleporters, the
/// ball, the dividing line and the two scores. A rectangle is drawn
/// displaced by its own left and top edges, the ball by its own centre,
/// the line and the scores by the points named here.
#[derive(Clone, Copy, Debug, PartialEq, Eq, Structural)]
pub struct Scene {
    pub paddle1: Rect,
    pub paddle2: Rect,
    pub teleporter_top: Rect,
    pub teleporter_bottom: Rect,
    pub ball: Disc,
    pub divider: Line,
    pub divider_at: Point,
    pub player1_score: ScoreLabel,
    pub player1_score_at: Point,
    pub player2_score: ScoreLabel,
    pub player2_score_at: Point,
}

/// The numeral of the digit `d`.
pub open spec fn digit(d: int) -> Seq<char> {
    "0123456789"@.subrange(d, d + 1)
}

/// The decimal numeral of `n`, without leading zeros.
pub open spec fn decimal(n: nat) -> Seq<char>
    decreases n,
{
    if n < 10 {
        digit(n as int)
    } else {
        decimal(n / 10) + digit((n % 10) as int)
    }
}

/// The decimal numeral of `n`, with a minus sign before it if `n` is
/// negative.
pub open spec fn numeral(n: int) -> Seq<char> {
    if n < 0 {
        "-"@ + decimal((-n) as nat)
    } else {
        decimal(n as nat)
    }
}

impl ScoreLabel {
    /// The letters of the label: the numeral of the points, "W" for the
    /// winner, "L" for the loser.
    pub open spec fn letters(self) -> Seq<char> {
        match self {
            ScoreLabel::Points(n) => numeral(n as int),
            ScoreLabel::Won => "W"@,
            ScoreLabel::Lost => "L"@,
        }
    }

    /// The label as text.
    pub fn text(&self) -> (text: String)
        ensures
            text@ == self.letters(),
    {
        match self {
            ScoreLabel::Points(n) => numeral_text(*n),
            ScoreLabel::Won => "W".to_owned(),
            ScoreLabel::Lost => "L".to_owned(),
        }
    }
}

/// The numeral of the digit `d`.
fn digit_text(d: u32) -> (text: &'static str)
    requires
        d < 10,
    ensures
        text@ == digit(d as int),
{
    proof {
        reveal_strlit("0123456789");
    }
    let first: usize = d as usize;
    "0123456789".substring_ascii(first, first + 1)
}

/// The decimal numeral of `n`.
pub fn decimal_text(n: u32) -> (text: String)
    ensures
        text@ == decimal(n as nat),
    decreases n,
{
    if n < 10 {
        digit_text(n).to_owned()
    } else {
        let mut text = decimal_text(n / 10);
        text.append(digit_text(n % 10));
        text
    }
}

/// The decimal numeral of `n`, with a minus sign before it if `n` is
/// negative.
pub fn numeral_text(n: i32) -> (text: String)
    ensures
        text@ == numeral(n as int),
{
    if n < 0 {
        let wide: i64 = n as i64;
        let size: u32 = (-wide) as u32;
        let digits = decimal_text(size);
        let mut text = "-".to_owned();
        text.append(digits.as_str());
        text
    } else {
        decimal_text(n as u32)
    }
}

impl MainState {
    /// What stands for the left player's score: the mark of the loser
    /// once the right player has more than the winning score, else the
    /// mark of the winner once the left player has, else the points.
    pub open spec fn player1_label_spec(self) -> ScoreLabel {
        if self.player2_score > WINNING_SCORE {
            ScoreLabel::Lost
        } else if self.player1_score > WINNING_SCORE {
            ScoreLabel::Won
        } else {
            ScoreLabel::Points(self.player1_score)
        }
    }

    /// What stands for the right player's score: the mark of the winner
    /// once the right player has more than the winning score, else the
    /// mark of the loser once the left player has, else the points.
    pub open spec fn player2_label_spec(self) -> ScoreLabel {
        if self.player2_score > WINNING_SCORE {
            ScoreLabel::Won
        } else if self.player1_score > WINNING_SCORE {
            ScoreLabel::Lost
        } else {
            ScoreLabel::Points(self.player2_score)
        }
    }

    /// What stands for the left player's score.
    pub fn player1_label(&self) -> (label: ScoreLabel)
        ensures
            label == self.player1_label_spec(),
    {
        if self.player2_score > WINNING_SCORE {
            ScoreLabel::Lost
        } else if self.player1_score > WINNING_SCORE {
            ScoreLabel::Won
        } else {
            ScoreLabel::Points(self.player1_score)
        }
    }

    /// What stands for the right player's score.
    pub fn player2_label(&self) -> (label: ScoreLabel)
        ensures
            label == self.player2_label_spec(),
    {
        if self.player2_score > WINNING_SCORE {
            ScoreLabel::Won
        } else if self.player1_score > WINNING_SCORE {
            ScoreLabel::Lost
        } else {
            ScoreLabel::Points(self.player2_score)
        }
    }

    /// What a renderer is shown of this game: the paddles at their full
    /// drawn size, the teleporters and the ball as they are, the dividing
    /// line down the middle, and for each player the label of the score.
    pub open spec fn scene_spec(self) -> Scene {
        Scene {
            paddle1: Rect {
                x: self.player1.pos_x,
                y: self.player1.pos_y,
                w: PADDLE_WIDTH,
                h: PADDLE_HEIGHT,
            },
            paddle2: Rect {
                x: self.player2.pos_x,
                y: self.player2.pos_y,
                w: PADDLE_WIDTH,
                h: PADDLE_HEIGHT,
            },
            teleporter_top: Rect {
                x: self.teleporter_top.pos_x,
                y: self.teleporter_top.pos_y,
                w: self.teleporter_top.width,
                h: self.teleporter_top.height,
            },
            teleporter_bottom: Rect {
                x: self.teleporter_bottom.pos_x,
                y: self.teleporter_bottom.pos_y,
                w: self.teleporter_bottom.width,
                h: self.teleporter_bottom.height,
            },
            ball: Disc {
                centre: Point { x: self.ball.pos_x, y: self.ball.pos_y },
                radius: self.ball.radius,
            },
            divider: Line {
                from: Point { x: DIVIDER_X, y: DIVIDER_TOP },
                to: Point { x: DIVIDER_X, y: DIVIDER_BOTTOM },
                width: DIVIDER_WIDTH,
            },
            divider_at: Point { x: DIVIDER_X, y: DIVIDER_DROP },
            player1_score: self.player1_label_spec(),
            player1_score_at: Point { x: LEFT_SCORE_X, y: SCORE_Y },
            player2_score: self.player2_label_spec(),
            player2_score_at: Point { x: RIGHT_SCORE_X, y: SCORE_Y },
        }
    }

    /// What a renderer is shown of this game.
    pub fn scene(&self) -> (scene: Scene)
        ensures
            scene == self.scene_spec(),
    {
        Scene {
            paddle1: Rect {
                x: self.player1.pos_x,
                y: self.player1.pos_y,
                w: PADDLE_WIDTH,
                h: PADDLE_HEIGHT,
            },
            paddle2: Rect {
                x: self.player2.pos_x,
                y: self.player2.pos_y,
                w: PADDLE_WIDTH,
                h: PADDLE_HEIGHT,
            },
            teleporter_top: Rect {
                x: self.teleporter_top.pos_x,
                y: self.teleporter_top.pos_y,
                w: self.teleporter_top.width,
                h: self.teleporter_top.height,
            },
            teleporter_bottom: Rect {
                x: self.teleporter_bottom.pos_x,
                y: self.teleporter_bottom.pos_y,
                w: self.teleporter_bottom.width,
                h: self.teleporter_bottom.height,
            },
            ball: Disc {
                centre: Point { x: self.ball.pos_x, y: self.ball.pos_y },
                radius: self.ball.radius,
            },
            divider: Line {
                from: Point { x: DIVIDER_X, y: DIVIDER_TOP },
                to: Point { x: DIVIDER_X, y: DIVIDER_BOTTOM },
                width: DIVIDER_WIDTH,
            },
            divider_at: Point { x: DIVIDER_X, y: DIVIDER_DROP },
            player1_score: self.player1_label(),
            player1_score_at: Point { x: LEFT_SCORE_X, y: SCORE_Y },
            player2_score: self.player2_label(),
            player2_score_at: Point { x: RIGHT_SCORE_X, y: SCORE_Y },
        }
    }
}

} // verus!
