//! What the players are holding down during one tick.

use vstd::prelude::*;

verus! {

/// One of the four logical controls of the game.
#[derive(Clone, Copy, Debug, PartialEq, Eq, Structural)]
pub enum Control {
    /// The left player's "up".
    P1Up,
    /// The left player's "down".
    P1Down,
    /// The right player's "up".
    P2Up,
    /// The right player's "down".
    P2Down,
}

/// A snapshot of the four controls: `true` where one is held down.
#[derive(Clone, Copy, Debug, PartialEq, Eq, Structural)]
pub struct Input {
    pub p1_up: bool,
    pub p1_down: bool,
    pub p2_up: bool,
    pub p2_down: bool,
}

impl Input {
    /// Whether `control` is held down in this snapshot.
    pub open spec fn pressed(self, control: Control) -> bool {
        match control {
            Control::P1Up => self.p1_up,
            Control::P1Down => self.p1_down,
            Control::P2Up => self.p2_up,
            Control::P2Down => self.p2_down,
        }
    }

    /// Whether `control` is held down in this snapshot.
    pub fn is_key_pressed(&self, control: Control) -> (held: bool)
        ensures
            held == self.pressed(control),
    {
        match control {
            Control::P1Up => self.p1_up,
            Control::P1Down => self.p1_down,
            Control::P2Up => self.p2_up,
            Control::P2Down => self.p2_down,
        }
    }
}

} // verus!
