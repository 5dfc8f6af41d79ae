//! The two teleporter zones, which carry the ball from one edge of the
//! playfield to the other.

use vstd::prelude::*;
use crate::units::{TELEPORTER_HEIGHT, TELEPORTER_WIDTH, WINDOW_HEIGHT, WINDOW_WIDTH};

verus! {

/// The edge of the playfield a teleporter lies along.
#[derive(Clone, Copy, Debug, PartialEq, Eq, Structural)]
pub enum TeleporterLocation {
    Top,
    Bottom,
}

/// A teleporter zone. `pos_x` and `pos_y` are its left and top edges.
#[derive(Clone, Copy, Debug)]
pub struct Teleporter {
    pub location: TeleporterLocation,
    pub pos_x: i64,
    pub pos_y: i64,
    pub width: i64,
    pub height: i64,
}

/// A teleporter zone as the contracts see it, with unbounded coordinates.
pub struct TeleporterView {
    pub location: TeleporterLocation,
    pub pos_x: int,
    pub pos_y: int,
    pub width: int,
    pub height: int,
}

impl View for Teleporter {
    type V = TeleporterView;

    open spec fn view(&self) -> TeleporterView {
        TeleporterView {
            location: self.location,
            pos_x: self.pos_x as int,
            pos_y: self.pos_y as int,
            width: self.width as int,
            height: self.height as int,
        }
    }
}

impl TeleporterView {
    /// The zone along `location`: it begins a quarter of its width left
    /// of the middle of the playfield, and lies against its edge from
    /// inside.
    pub open spec fn opening(location: TeleporterLocation) -> TeleporterView {
        TeleporterView {
            location,
            pos_x: WINDOW_WIDTH / 2 - TELEPORTER_WIDTH / 4,
            pos_y: if location == TeleporterLocation::Top {
                0
            } else {
                WINDOW_HEIGHT - TELEPORTER_HEIGHT
            },
            width: TELEPORTER_WIDTH as int,
            height: TELEPORTER_HEIGHT as int,
        }
    }

    /// Whether `x` lies within the zone's span, ends included.
    pub open spec fn spans(self, x: int) -> bool {
        self.pos_x <= x <= self.pos_x + TELEPORTER_WIDTH
    }
}

impl Teleporter {
    /// The zone along `location`.
    pub fn new(location: TeleporterLocation) -> (t: Teleporter)
        ensures
            t@ == TeleporterView::opening(location),
    {
        let pos_y: i64 = if location == TeleporterLocation::Top {
            0
        } else {
            WINDOW_HEIGHT - TELEPORTER_HEIGHT
        };
        Teleporter {
            location,
            pos_x: WINDOW_WIDTH / 2 - TELEPORTER_WIDTH / 4,
            pos_y,
            width: TELEPORTER_WIDTH,
            height: TELEPORTER_HEIGHT,
        }
    }
}

} // verus!
