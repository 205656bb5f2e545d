//! The fixed aircraft-reference symbology.
//!
//! A center dot and two wing-level reference marks, drawn at fixed screen
//! coordinates on every frame, after the background: they represent the
//! aircraft frame and never move with pitch or roll.

use crate::geometry::Point;
use crate::horizon::CENTER_X;
use crate::horizon::CENTER_Y;
use vstd::prelude::*;

verus! {

/// Radius of the aircraft reference dot at the screen center.
pub const AIRCRAFT_SYMBOL_RADIUS: u32 = 3;

/// Horizontal gap between the screen center and each wing-level mark.
pub const HORIZON_MARKER_OFFSET_X: i32 = 20;

/// Length of each wing-level mark.
pub const HORIZON_MARKER_LENGTH: u32 = 20;

/// Thickness of each wing-level mark.
pub const HORIZON_MARKER_THICKNESS: u32 = 4;

/// An axis-aligned filled rectangle, given by its top-left corner and size.
#[derive(Clone, Copy, PartialEq, Eq, Structural, Debug)]
pub struct RectShape {
    pub top_left: Point,
    pub width: u32,
    pub height: u32,
}

/// A filled circle, given by its center and radius.
#[derive(Clone, Copy, PartialEq, Eq, Structural, Debug)]
pub struct CircleShape {
    pub center: Point,
    pub radius: u32,
}

/// The wing-level mark left of center, vertically centered on the horizon
/// reference line.
pub open spec fn left_marker_spec() -> RectShape {
    RectShape {
        top_left: Point {
            x: (CENTER_X - HORIZON_MARKER_OFFSET_X - HORIZON_MARKER_LENGTH as i32) as i32,
            y: (CENTER_Y - (HORIZON_MARKER_THICKNESS as i32) / 2) as i32,
        },
        width: HORIZON_MARKER_LENGTH,
        height: HORIZON_MARKER_THICKNESS,
    }
}

/// The wing-level mark right of center.
pub open spec fn right_marker_spec() -> RectShape {
    RectShape {
        top_left: Point {
            x: (CENTER_X + HORIZON_MARKER_OFFSET_X) as i32,
            y: (CENTER_Y - (HORIZON_MARKER_THICKNESS as i32) / 2) as i32,
        },
        width: HORIZON_MARKER_LENGTH,
        height: HORIZON_MARKER_THICKNESS,
    }
}

/// The aircraft reference dot at the screen center.
pub open spec fn aircraft_symbol_spec() -> CircleShape {
    CircleShape {
        center: Point { x: CENTER_X, y: CENTER_Y },
        radius: AIRCRAFT_SYMBOL_RADIUS,
    }
}

/// Builds the left wing-level mark.
pub fn left_marker() -> (r: RectShape)
    ensures
        r == left_marker_spec(),
{
    RectShape {
        top_left: Point {
            x: CENTER_X - HORIZON_MARKER_OFFSET_X - HORIZON_MARKER_LENGTH as i32,
            y: CENTER_Y - (HORIZON_MARKER_THICKNESS as i32) / 2,
        },
        width: HORIZON_MARKER_LENGTH,
        height: HORIZON_MARKER_THICKNESS,
    }
}

/// Builds the right wing-level mark.
pub fn right_marker() -> (r: RectShape)
    ensures
        r == right_marker_spec(),
{
    RectShape {
        top_left: Point {
            x: CENTER_X + HORIZON_MARKER_OFFSET_X,
            y: CENTER_Y - (HORIZON_MARKER_THICKNESS as i32) / 2,
        },
        width: HORIZON_MARKER_LENGTH,
        height: HORIZON_MARKER_THICKNESS,
    }
}

/// Builds the aircraft reference dot.
pub fn aircraft_symbol() -> (r: CircleShape)
    ensures
        r == aircraft_symbol_spec(),
{
    CircleShape {
        center: Point { x: CENTER_X, y: CENTER_Y },
        radius: AIRCRAFT_SYMBOL_RADIUS,
    }
}

} // verus!
