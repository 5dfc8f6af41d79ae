//! The paddles: where they stand and how they move.

use vstd::prelude::*;
use crate::input::{Control, Input};
use crate::units::{
    fits, greater, lesser, PADDLE_HEIGHT, PADDLE_SPEED, PADDLE_WIDTH, WINDOW_HEIGHT, WINDOW_WIDTH,
};

verus! {

/// Who moves a paddle.
#[derive(Clone, Copy, Debug, PartialEq, Eq, Structural)]
pub enum PlayerID {
    /// The person at the left paddle.
    Player1,
    /// A person at the right paddle.
    Player2,
    /// The computer at the right paddle: it follows the ball by itself and
    /// takes no notice of the controls.
    Comp,
}

/// A paddle. `pos_x` and `pos_y` are its left and top edges.
#[derive(Clone, Copy, Debug)]
pub struct Player {
    pub player_id: PlayerID,
    pub pos_x: i64,
    pub pos_y: i64,
    pub key_up: Control,
    pub key_down: Control,
}

/// A paddle as the contracts see it, with unbounded coordinates.
pub struct PlayerView {
    pub player_id: PlayerID,
    pub pos_x: int,
    pub pos_y: int,
    pub key_up: Control,
    pub key_down: Control,
}

impl View for Player {
    type V = PlayerView;

    open spec fn view(&self) -> PlayerView {
        PlayerView {
            player_id: self.player_id,
            pos_x: self.pos_x as int,
            pos_y: self.pos_y as int,
            key_up: self.key_up,
            key_down: self.key_down,
        }
    }
}

impl PlayerView {
    /// The paddle of `id` before the first tick: the left player's stands
    /// half a paddle width from the left edge and answers to the left
    /// controls, any other stands a paddle width from the right edge and
    /// answers to the right controls. Both start with their reference
    /// point on the middle line.
    pub open spec fn opening(id: PlayerID) -> PlayerView {
        if id == PlayerID::Player1 {
            PlayerView {
                player_id: id,
                pos_x: PADDLE_WIDTH / 2,
                pos_y: WINDOW_HEIGHT / 2 - PADDLE_HEIGHT / 4,
                key_up: Control::P1Up,
                key_down: Control::P1Down,
            }
        } else {
            PlayerView {
                player_id: id,
                pos_x: WINDOW_WIDTH - PADDLE_WIDTH,
                pos_y: WINDOW_HEIGHT / 2 - PADDLE_HEIGHT / 4,
                key_up: Control::P2Up,
                key_down: Control::P2Down,
            }
        }
    }

    /// The height the computer steers toward the ball, and from which a
    /// deflection is measured: a quarter of a paddle height below the top.
    pub open spec fn reference_y(self) -> int {
        self.pos_y + PADDLE_HEIGHT / 4
    }

    /// The paddle may still be moved down.
    pub open spec fn may_descend(self) -> bool {
        self.pos_y <= WINDOW_HEIGHT - PADDLE_HEIGHT / 2
    }

    /// The paddle may still be moved up.
    pub open spec fn may_ascend(self) -> bool {
        self.pos_y >= 0
    }

    /// This paddle at height `y`.
    pub open spec fn at(self, y: int) -> PlayerView {
        PlayerView { pos_y: y, ..self }
    }

    /// The paddle after a tick under a person's hand: down by one paddle
    /// speed if "down" is held and the paddle may descend; otherwise up by
    /// as much if "up" is held and it may ascend; otherwise where it was.
    /// With both held, "down" wins.
    pub open spec fn steered(self, input: Input) -> PlayerView {
        if input.pressed(self.key_down) && self.may_descend() {
            self.at(self.pos_y + PADDLE_SPEED)
        } else if input.pressed(self.key_up) && self.may_ascend() {
            self.at(self.pos_y - PADDLE_SPEED)
        } else {
            self
        }
    }

    /// The paddle after a tick under the computer's hand: it closes the
    /// gap between its reference height and the ball's height `ball_y`,
    /// by no more than one paddle speed, as far as it may move that way.
    pub open spec fn tracking(self, ball_y: int) -> PlayerView {
        let offset = ball_y - self.reference_y();
        if offset > 0 && self.may_descend() {
            self.at(self.pos_y + lesser(offset, PADDLE_SPEED as int))
        } else if offset < 0 && self.may_ascend() {
            self.at(self.pos_y + greater(offset, -PADDLE_SPEED))
        } else {
            self
        }
    }

    /// Whether the arithmetic of following a ball at height `ball_y`
    /// stays within what a coordinate can hold.
    pub open spec fn tracks_in_range(self, ball_y: int) -> bool {
        &&& fits(self.reference_y())
        &&& fits(ball_y - self.reference_y())
    }

    /// Whether the far edges of a striking face `width` wide stay within
    /// what a coordinate can hold.
    pub open spec fn face_in_range(self, width: int) -> bool {
        &&& fits(self.pos_x + width)
        &&& fits(self.pos_y + PADDLE_HEIGHT / 2)
    }

    /// The paddle after a tick: the computer's follows the ball at height
    /// `ball_y`, any other obeys `input`.
    pub open spec fn moved(self, input: Input, ball_y: int) -> PlayerView {
        if self.player_id == PlayerID::Comp {
            self.tracking(ball_y)
        } else {
            self.steered(input)
        }
    }

    /// The heights a paddle can reach: the test on its position comes
    /// before the move, so it overshoots either limit by up to one paddle
    /// speed.
    pub open spec fn in_reach(self) -> bool {
        -PADDLE_SPEED <= self.pos_y <= WINDOW_HEIGHT - PADDLE_HEIGHT / 2 + PADDLE_SPEED
    }

    /// Whether the point `(x, y)` lies on the paddle's striking face,
    /// which is `width` wide and half a paddle height tall, edges
    /// included.
    pub open spec fn struck_at(self, x: int, y: int, width: int) -> bool {
        &&& self.pos_x <= x <= self.pos_x + width
        &&& self.pos_y <= y <= self.pos_y + PADDLE_HEIGHT / 2
    }
}

impl Player {
    /// The paddle of `id` before the first tick.
    pub fn new(id: PlayerID) -> (p: Player)
        ensures
            p@ == PlayerView::opening(id),
    {
        let start_y: i64 = WINDOW_HEIGHT / 2 - PADDLE_HEIGHT / 4;
        if id == PlayerID::Player1 {
            Player {
                player_id: id,
                pos_x: PADDLE_WIDTH / 2,
                pos_y: start_y,
                key_up: Control::P1Up,
                key_down: Control::P1Down,
            }
        } else {
            Player {
                player_id: id,
                pos_x: WINDOW_WIDTH - PADDLE_WIDTH,
                pos_y: start_y,
                key_up: Control::P2Up,
                key_down: Control::P2Down,
            }
        }
    }

    /// Moves the paddle as the held controls ask, for one tick.
    pub fn steer(&mut self, input: &Input)
        ensures
            final(self)@ == old(self)@.steered(*input),
    {
        if input.is_key_pressed(self.key_down) && self.pos_y <= WINDOW_HEIGHT - PADDLE_HEIGHT / 2 {
            self.pos_y = self.pos_y + PADDLE_SPEED;
        } else if input.is_key_pressed(self.key_up) && self.pos_y >= 0 {
            self.pos_y = self.pos_y - PADDLE_SPEED;
        }
    }

    /// Moves the paddle toward a ball at height `ball_y`, for one tick.
    pub fn track(&mut self, ball_y: i64)
        requires
            old(self)@.tracks_in_range(ball_y as int),
        ensures
            final(self)@ == old(self)@.tracking(ball_y as int),
    {
        let offset: i64 = ball_y - (self.pos_y + PADDLE_HEIGHT / 4);
        if offset > 0 && self.pos_y <= WINDOW_HEIGHT - PADDLE_HEIGHT / 2 {
            let step: i64 = if offset <= PADDLE_SPEED { offset } else { PADDLE_SPEED };
            self.pos_y = self.pos_y + step;
        } else if offset < 0 && self.pos_y >= 0 {
            let step: i64 = if offset >= -PADDLE_SPEED { offset } else { -PADDLE_SPEED };
            self.pos_y = self.pos_y + step;
        }
    }

    /// Moves the paddle for one tick: the computer's toward a ball at
    /// height `ball_y`, any other as the held controls ask.
    pub fn advance(&mut self, input: &Input, ball_y: i64)
        requires
            old(self).player_id == PlayerID::Comp ==> old(self)@.tracks_in_range(ball_y as int),
        ensures
            final(self)@ == old(self)@.moved(*input, ball_y as int),
    {
        if self.player_id == PlayerID::Comp {
            self.track(ball_y);
        } else {
            self.steer(input);
        }
    }
}

} // verus!
