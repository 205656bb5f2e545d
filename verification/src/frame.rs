//! The per-frame draw plan.
//!
//! One frame is a fixed sequence of filled primitives: the two sky
//! triangles, the two ground triangles, and then — after the background, so
//! that it is never occluded — the two wing-level marks and the aircraft
//! dot. The plan is a plain list that the drawing surface consumes in
//! order; any draw failure aborts the frame and is reported by the surface.

use crate::horizon::HorizonShapes;
use crate::geometry::Point;
use crate::symbology::CircleShape;
use crate::symbology::RectShape;
use crate::symbology::aircraft_symbol;
use crate::symbology::aircraft_symbol_spec;
use crate::symbology::left_marker;
use crate::symbology::left_marker_spec;
use crate::symbology::right_marker;
use crate::symbology::right_marker_spec;
use vstd::prelude::*;

verus! {

/// The flat fill colors of the display.
#[derive(Clone, Copy, PartialEq, Eq, Structural, Debug)]
pub enum DrawColor {
    Sky,
    Ground,
    White,
}

/// One filled primitive of a frame.
#[derive(Clone, Copy, PartialEq, Eq, Structural, Debug)]
pub enum DrawCmd {
    FillTriangle { a: Point, b: Point, c: Point, color: DrawColor },
    FillRect { rect: RectShape, color: DrawColor },
    FillCircle { circle: CircleShape, color: DrawColor },
}

/// Composes the draw plan of one frame from the rotated sky/ground points:
/// sky triangles, ground triangles, then the fixed symbology on top.
pub fn frame_plan(shapes: HorizonShapes) -> (r: Vec<DrawCmd>)
    ensures
        r@.len() == 7,
        r@[0] == (DrawCmd::FillTriangle {
            a: shapes.horizon_left,
            b: shapes.horizon_right,
            c: shapes.sky_right,
            color: DrawColor::Sky,
        }),
        r@[1] == (DrawCmd::FillTriangle {
            a: shapes.horizon_left,
            b: shapes.sky_right,
            c: shapes.sky_left,
            color: DrawColor::Sky,
        }),
        r@[2] == (DrawCmd::FillTriangle {
            a: shapes.horizon_left,
            b: shapes.horizon_right,
            c: shapes.ground_right,
            color: DrawColor::Ground,
        }),
        r@[3] == (DrawCmd::FillTriangle {
            a: shapes.horizon_left,
            b: shapes.ground_right,
            c: shapes.ground_left,
            color: DrawColor::Ground,
        }),
        r@[4] == (DrawCmd::FillRect { rect: left_marker_spec(), color: DrawColor::White }),
        r@[5] == (DrawCmd::FillRect { rect: right_marker_spec(), color: DrawColor::White }),
        r@[6] == (DrawCmd::FillCircle {
            circle: aircraft_symbol_spec(),
            color: DrawColor::White,
        }),
{
    let mut plan: Vec<DrawCmd> = Vec::new();
    plan.push(
        DrawCmd::FillTriangle {
            a: shapes.horizon_left,
            b: shapes.horizon_right,
            c: shapes.sky_right,
            color: DrawColor::Sky,
        },
    );
    plan.push(
        DrawCmd::FillTriangle {
            a: shapes.horizon_left,
            b: shapes.sky_right,
            c: shapes.sky_left,
            color: DrawColor::Sky,
        },
    );
    plan.push(
        DrawCmd::FillTriangle {
            a: shapes.horizon_left,
            b: shapes.horizon_right,
            c: shapes.ground_right,
            color: DrawColor::Ground,
        },
    );
    plan.push(
        DrawCmd::FillTriangle {
            a: shapes.horizon_left,
            b: shapes.ground_right,
            c: shapes.ground_left,
            color: DrawColor::Ground,
        },
    );
    plan.push(DrawCmd::FillRect { rect: left_marker(), color: DrawColor::White });
    plan.push(DrawCmd::FillRect { rect: right_marker(), color: DrawColor::White });
    plan.push(DrawCmd::FillCircle { circle: aircraft_symbol(), color: DrawColor::White });
    plan
}

} // verus!
