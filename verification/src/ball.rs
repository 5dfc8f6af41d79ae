//! The ball: its flight, its bounces and its serves.

use vstd::prelude::*;
use crate::units::{
    clamped, fits, lemma_toward_zero_sign, magnitude, toward_zero, PADDLE_HEIGHT, PADDLE_WIDTH, UNIT,
    WINDOW_HEIGHT, WINDOW_WIDTH,
};

verus! {

/// Radius of the ball.
pub const BALL_RADIUS: i64 = 10_000;

/// Horizontal speed of the ball at the start of a game.
pub const OPENING_SPEED_X: i64 = 12_000;

/// Vertical speed of the ball at the start of a game.
pub const OPENING_SPEED_Y: i64 = 1_000;

/// The largest vertical speed a paddle can give the ball.
pub const MAX_DEFLECTION: i64 = 5_000;

/// A deflection grows by a hundredth of the ball's speed for each
/// playfield unit between the ball and the paddle's reference height.
pub const DEFLECTION_SCALE: i64 = 100_000;

/// How far from a side edge the ball is put down for a serve: two paddle
/// widths.
pub const SERVE_INSET: i64 = 2 * PADDLE_WIDTH;

/// The ball. `pos_x` and `pos_y` are its centre, `vel_x` and `vel_y` what
/// a tick adds to them.
#[derive(Clone, Copy, Debug)]
pub struct Ball {
    pub pos_x: i64,
    pub pos_y: i64,
    pub vel_x: i64,
    pub vel_y: i64,
    pub radius: i64,
}

/// The ball as the contracts see it, with unbounded coordinates.
pub struct BallView {
    pub pos_x: int,
    pub pos_y: int,
    pub vel_x: int,
    pub vel_y: int,
    pub radius: int,
}

impl View for Ball {
    type V = BallView;

    open spec fn view(&self) -> BallView {
        BallView {
            pos_x: self.pos_x as int,
            pos_y: self.pos_y as int,
            vel_x: self.vel_x as int,
            vel_y: self.vel_y as int,
            radius: self.radius as int,
        }
    }
}

/// The vertical speed a paddle gives a ball of total speed `speed` that
/// strikes it `offset` below its reference height: a hundredth of
/// `speed` for each playfield unit of `offset`, rounded toward zero and
/// kept within the largest deflection.
pub open spec fn deflection(speed: int, offset: int) -> int {
    clamped(toward_zero(speed * offset, DEFLECTION_SCALE as int), MAX_DEFLECTION as int)
}

impl BallView {
    /// The ball before the first tick: in the middle of the playfield,
    /// on its way to the right and slightly down.
    pub open spec fn opening() -> BallView {
        BallView {
            pos_x: WINDOW_WIDTH / 2,
            pos_y: WINDOW_HEIGHT / 2,
            vel_x: OPENING_SPEED_X as int,
            vel_y: OPENING_SPEED_Y as int,
            radius: BALL_RADIUS as int,
        }
    }

    /// The ball after the test on the top and bottom edges: on or beyond
    /// an edge its vertical speed changes sign. Its position stays as it
    /// is, even beyond the edge.
    pub open spec fn bounced(self) -> BallView {
        if self.pos_y <= 0 || self.pos_y >= WINDOW_HEIGHT {
            BallView { vel_y: -self.vel_y, ..self }
        } else {
            self
        }
    }

    /// Where a ball that flies with horizontal speed `vel_x` is put down
    /// for a serve: a serve inset away from the edge it flies toward, and
    /// from the right edge when it does not move sideways.
    pub open spec fn serve_x(vel_x: int) -> int {
        if vel_x < 0 {
            SERVE_INSET as int
        } else {
            WINDOW_WIDTH - SERVE_INSET
        }
    }

    /// The ball after a point: it turns round, and is put down on row
    /// `row` (counted in whole playfield units from the top) a serve
    /// inset away from the edge it now flies toward.
    pub open spec fn served(self, row: int) -> BallView {
        BallView {
            pos_x: Self::serve_x(-self.vel_x),
            pos_y: row * UNIT,
            vel_x: -self.vel_x,
            ..self
        }
    }

    /// The sum of the magnitudes of the two speeds.
    pub open spec fn speed(self) -> int {
        magnitude(self.vel_x) + magnitude(self.vel_y)
    }

    /// The ball after it struck a paddle whose reference height is
    /// `reference_y`: it turns round, and its new vertical speed is the
    /// deflection of its total speed at the distance of the ball below
    /// the reference height.
    pub open spec fn deflected(self, reference_y: int) -> BallView {
        BallView {
            vel_x: -self.vel_x,
            vel_y: deflection(self.speed(), self.pos_y - reference_y),
            ..self
        }
    }

    /// Whether the arithmetic of a deflection at `reference_y` stays
    /// within what a coordinate can hold.
    pub open spec fn deflects_in_range(self, reference_y: int) -> bool {
        &&& fits(-self.vel_x)
        &&& fits(-self.vel_y)
        &&& fits(self.speed())
        &&& fits(self.pos_y - reference_y)
        &&& fits(self.speed() * (self.pos_y - reference_y))
    }

    /// Whether a tick of flight stays within what a coordinate can hold.
    pub open spec fn advances_in_range(self) -> bool {
        &&& fits(self.pos_x + self.vel_x)
        &&& fits(self.pos_y + self.vel_y)
    }

    /// The ball one tick of flight later.
    pub open spec fn advanced(self) -> BallView {
        BallView { pos_x: self.pos_x + self.vel_x, pos_y: self.pos_y + self.vel_y, ..self }
    }

    /// The ball brought to rest where it is.
    pub open spec fn frozen(self) -> BallView {
        BallView { vel_x: 0, vel_y: 0, ..self }
    }
}

/// A deflection is never larger than the largest deflection, whatever
/// the speed and the offset, and has the sign of the offset or is zero.
pub proof fn lemma_deflection_is_clamped(speed: int, offset: int)
    ensures
        -MAX_DEFLECTION <= deflection(speed, offset) <= MAX_DEFLECTION,
        speed >= 0 && offset >= 0 ==> deflection(speed, offset) >= 0,
        speed >= 0 && offset <= 0 ==> deflection(speed, offset) <= 0,
{
    lemma_toward_zero_sign(speed * offset, DEFLECTION_SCALE as int);
    if speed >= 0 && offset >= 0 {
        assert(speed * offset >= 0) by (nonlinear_arith)
            requires
                speed >= 0,
                offset >= 0,
        ;
    }
    if speed >= 0 && offset <= 0 {
        assert(speed * offset <= 0) by (nonlinear_arith)
            requires
                speed >= 0,
                offset <= 0,
        ;
    }
}

impl Ball {
    /// The ball before the first tick.
    pub fn new() -> (b: Ball)
        ensures
            b@ == BallView::opening(),
    {
        Ball {
            pos_x: WINDOW_WIDTH / 2,
            pos_y: WINDOW_HEIGHT / 2,
            vel_x: OPENING_SPEED_X,
            vel_y: OPENING_SPEED_Y,
            radius: BALL_RADIUS,
        }
    }

    /// Turns the ball's vertical speed round if the ball is on or beyond
    /// the top or the bottom edge.
    pub fn bounce(&mut self)
        requires
            fits(-old(self).vel_y),
        ensures
            final(self)@ == old(self)@.bounced(),
    {
        if self.pos_y <= 0 || self.pos_y >= WINDOW_HEIGHT {
            self.vel_y = -self.vel_y;
        }
    }

    /// Turns the ball round and puts it down for a serve on row `row`.
    pub fn serve(&mut self, row: i32)
        requires
            fits(-old(self).vel_x),
        ensures
            final(self)@ == old(self)@.served(row as int),
    {
        self.vel_x = -self.vel_x;
        let row_wide: i64 = row as i64;
        self.pos_y = row_wide * UNIT;
        if self.vel_x < 0 {
            self.pos_x = SERVE_INSET;
        } else {
            self.pos_x = WINDOW_WIDTH - SERVE_INSET;
        }
    }

    /// Turns the ball round at a paddle whose reference height is
    /// `reference_y`, and gives it the deflection of that strike.
    pub fn deflect(&mut self, reference_y: i64)
        requires
            old(self)@.deflects_in_range(reference_y as int),
        ensures
            final(self)@ == old(self)@.deflected(reference_y as int),
    {
        let offset: i64 = self.pos_y - reference_y;
        let speed_x: i64 = if self.vel_x < 0 { -self.vel_x } else { self.vel_x };
        let speed_y: i64 = if self.vel_y < 0 { -self.vel_y } else { self.vel_y };
        let speed: i64 = speed_x + speed_y;
        let scaled: i64 = (speed * offset) / DEFLECTION_SCALE;
        self.vel_x = -self.vel_x;
        if scaled > MAX_DEFLECTION {
            self.vel_y = MAX_DEFLECTION;
        } else if scaled < -MAX_DEFLECTION {
            self.vel_y = -MAX_DEFLECTION;
        } else {
            self.vel_y = scaled;
        }
    }

    /// Moves the ball by one tick of flight.
    pub fn advance(&mut self)
        requires
            old(self)@.advances_in_range(),
        ensures
            final(self)@ == old(self)@.advanced(),
    {
        self.pos_x = self.pos_x + self.vel_x;
        self.pos_y = self.pos_y + self.vel_y;
    }

    /// Brings the ball to rest where it is.
    pub fn freeze(&mut self)
        ensures
            final(self)@ == old(self)@.frozen(),
    {
        self.vel_x = 0;
        self.vel_y = 0;
    }
}

} // verus!
