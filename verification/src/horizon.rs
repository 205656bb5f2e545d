//! The horizon compositor.
//!
//! An attitude maps to six screen-space points: a horizon segment shifted
//! vertically by the pitch, and far sky/ground edges two screen heights
//! above and below it. The segments span from two screen widths left of the
//! screen to three screen widths right of it, so that after rotation at any
//! supported roll the sky and ground polygons still cover the whole screen.
//! All six points are then rotated about the screen center by the negated
//! roll angle (a positive roll banks the world the opposite way).

use crate::attitude::Attitude;
use crate::attitude::MAX_PITCH_CDEG;
use crate::geometry::Point;
use crate::geometry::RollTrig;
use crate::geometry::TRIG_SCALE;
use crate::geometry::rdiv;
use crate::geometry::rot_x;
use crate::geometry::rot_y;
use crate::geometry::rotate_point;
use crate::geometry::cross_i;
use crate::geometry::cross_spec;
use crate::geometry::in_coord_range;
use crate::geometry::tri_contains_spec;
use crate::geometry::triangle_contains;
use crate::geometry::lemma_rdiv_err;
use crate::geometry::lemma_rotate_identity;
use crate::geometry::rounded_div;
use vstd::prelude::*;

verus! {

/// Width of the addressable screen area in pixels.
pub const SCREEN_WIDTH: i32 = 240;

/// Height of the addressable screen area in pixels.
pub const SCREEN_HEIGHT: i32 = 320;

/// x coordinate of the screen center, the rotation center of the world.
pub const CENTER_X: i32 = 120;

/// y coordinate of the screen center.
pub const CENTER_Y: i32 = 160;

/// Vertical shift of the horizon per degree of pitch, in pixels.
pub const PITCH_PIXELS_PER_DEGREE: i32 = 4;

/// Hundredths of a degree per degree: the scale of attitude angles.
pub const CDEG_PER_DEGREE: i32 = 100;

/// The six rotated points describing the sky and ground polygons of one
/// frame: the horizon segment and the far sky/ground edges.
#[derive(Clone, Copy, PartialEq, Eq, Structural, Debug)]
pub struct HorizonShapes {
    pub horizon_left: Point,
    pub horizon_right: Point,
    pub sky_left: Point,
    pub sky_right: Point,
    pub ground_left: Point,
    pub ground_right: Point,
}

/// Vertical pixel offset of the horizon for a pitch in hundredths of a
/// degree, rounded to the nearest pixel.
pub open spec fn pitch_offset_spec(pitch_cdeg: int) -> int {
    rdiv(PITCH_PIXELS_PER_DEGREE as int * pitch_cdeg, CDEG_PER_DEGREE as int)
}

/// x coordinate of the left end of the oversized segments.
pub open spec fn base_left_x() -> int {
    CENTER_X as int - 2 * SCREEN_WIDTH as int
}

/// x coordinate of the right end of the oversized segments.
pub open spec fn base_right_x() -> int {
    CENTER_X as int + 3 * SCREEN_WIDTH as int
}

/// y coordinate of the unrotated horizon segment for the given pitch.
pub open spec fn horizon_y(pitch_cdeg: int) -> int {
    CENTER_Y as int + pitch_offset_spec(pitch_cdeg)
}

/// y coordinate of the unrotated far sky edge for the given pitch.
pub open spec fn sky_edge_y(pitch_cdeg: int) -> int {
    horizon_y(pitch_cdeg) - 2 * SCREEN_HEIGHT as int
}

/// y coordinate of the unrotated far ground edge for the given pitch.
pub open spec fn ground_edge_y(pitch_cdeg: int) -> int {
    horizon_y(pitch_cdeg) + 2 * SCREEN_HEIGHT as int
}

/// `q` is the point `(px, py)` rotated about the screen center by the angle
/// whose fixed-point sine and cosine are `s` and `c`.
pub open spec fn rotated_to(q: Point, px: int, py: int, s: int, c: int) -> bool {
    &&& q.x as int == rot_x(px, py, CENTER_X as int, CENTER_Y as int, s, c)
    &&& q.y as int == rot_y(px, py, CENTER_X as int, CENTER_Y as int, s, c)
}

/// Vertical pixel offset of the horizon for the given pitch.
pub fn pitch_offset_px(pitch_cdeg: i32) -> (r: i32)
    requires
        -MAX_PITCH_CDEG <= pitch_cdeg <= MAX_PITCH_CDEG,
    ensures
        r as int == pitch_offset_spec(pitch_cdeg as int),
        -80 <= r <= 80,
{
    let q: i64 = rounded_div(
        PITCH_PIXELS_PER_DEGREE as i64 * pitch_cdeg as i64,
        CDEG_PER_DEGREE as i64,
    );
    proof {
        lemma_rdiv_err(PITCH_PIXELS_PER_DEGREE as int * pitch_cdeg as int, CDEG_PER_DEGREE as int);
    }
    q as i32
}

/// Maps an attitude to the six rotated sky/ground points of one frame.
/// `roll` is the fixed-point sine/cosine pair of the roll angle itself;
/// the rotation applied to the world is by its negation.
pub fn horizon_shapes(att: Attitude, roll: RollTrig) -> (r: HorizonShapes)
    requires
        roll.wf(),
        -MAX_PITCH_CDEG <= att.pitch_cdeg <= MAX_PITCH_CDEG,
    ensures
        rotated_to(
            r.horizon_left,
            base_left_x(),
            horizon_y(att.pitch_cdeg as int),
            -roll.sin_q as int,
            roll.cos_q as int,
        ),
        rotated_to(
            r.horizon_right,
            base_right_x(),
            horizon_y(att.pitch_cdeg as int),
            -roll.sin_q as int,
            roll.cos_q as int,
        ),
        rotated_to(
            r.sky_left,
            base_left_x(),
            sky_edge_y(att.pitch_cdeg as int),
            -roll.sin_q as int,
            roll.cos_q as int,
        ),
        rotated_to(
            r.sky_right,
            base_right_x(),
            sky_edge_y(att.pitch_cdeg as int),
            -roll.sin_q as int,
            roll.cos_q as int,
        ),
        rotated_to(
            r.ground_left,
            base_left_x(),
            ground_edge_y(att.pitch_cdeg as int),
            -roll.sin_q as int,
            roll.cos_q as int,
        ),
        rotated_to(
            r.ground_right,
            base_right_x(),
            ground_edge_y(att.pitch_cdeg as int),
            -roll.sin_q as int,
            roll.cos_q as int,
        ),
{
    let off: i32 = pitch_offset_px(att.pitch_cdeg);
    let center: Point = Point { x: CENTER_X, y: CENTER_Y };
    let neg: RollTrig = roll.negated();
    let hy: i32 = CENTER_Y + off;
    let sy: i32 = hy - 2 * SCREEN_HEIGHT;
    let gy: i32 = hy + 2 * SCREEN_HEIGHT;
    let lx: i32 = CENTER_X - 2 * SCREEN_WIDTH;
    let rx: i32 = CENTER_X + 3 * SCREEN_WIDTH;
    HorizonShapes {
        horizon_left: rotate_point(Point { x: lx, y: hy }, center, neg),
        horizon_right: rotate_point(Point { x: rx, y: hy }, center, neg),
        sky_left: rotate_point(Point { x: lx, y: sy }, center, neg),
        sky_right: rotate_point(Point { x: rx, y: sy }, center, neg),
        ground_left: rotate_point(Point { x: lx, y: gy }, center, neg),
        ground_right: rotate_point(Point { x: rx, y: gy }, center, neg),
    }
}

/// `p` lies in the union of the four sky/ground triangles of the frame.
pub open spec fn covers_point_spec(sh: HorizonShapes, p: Point) -> bool {
    ||| tri_contains_spec(sh.horizon_left, sh.horizon_right, sh.sky_right, p)
    ||| tri_contains_spec(sh.horizon_left, sh.sky_right, sh.sky_left, p)
    ||| tri_contains_spec(sh.horizon_left, sh.horizon_right, sh.ground_right, p)
    ||| tri_contains_spec(sh.horizon_left, sh.ground_right, sh.ground_left, p)
}

/// Whether the sky and ground polygons of the frame cover the point: the
/// screen-space containment check of the coverage invariant.
pub fn covers_point(sh: &HorizonShapes, p: Point) -> (r: bool)
    requires
        in_coord_range(sh.horizon_left),
        in_coord_range(sh.horizon_right),
        in_coord_range(sh.sky_left),
        in_coord_range(sh.sky_right),
        in_coord_range(sh.ground_left),
        in_coord_range(sh.ground_right),
        in_coord_range(p),
    ensures
        r == covers_point_spec(*sh, p),
{
    triangle_contains(sh.horizon_left, sh.horizon_right, sh.sky_right, p)
        || triangle_contains(sh.horizon_left, sh.sky_right, sh.sky_left, p)
        || triangle_contains(sh.horizon_left, sh.horizon_right, sh.ground_right, p)
        || triangle_contains(sh.horizon_left, sh.ground_right, sh.ground_left, p)
}

/// At zero roll the sky and ground polygons cover every screen pixel, for
/// every pitch the animation can produce: the horizon stays within the
/// screen band, the far edges lie two screen heights beyond it, and the
/// segments overhang both sides of the screen.
pub proof fn lemma_level_roll_coverage(sh: HorizonShapes, pitch_cdeg: int, p: Point)
    requires
        -MAX_PITCH_CDEG <= pitch_cdeg <= MAX_PITCH_CDEG,
        rotated_to(sh.horizon_left, base_left_x(), horizon_y(pitch_cdeg), 0, TRIG_SCALE as int),
        rotated_to(sh.horizon_right, base_right_x(), horizon_y(pitch_cdeg), 0, TRIG_SCALE as int),
        rotated_to(sh.sky_left, base_left_x(), sky_edge_y(pitch_cdeg), 0, TRIG_SCALE as int),
        rotated_to(sh.sky_right, base_right_x(), sky_edge_y(pitch_cdeg), 0, TRIG_SCALE as int),
        rotated_to(sh.ground_left, base_left_x(), ground_edge_y(pitch_cdeg), 0, TRIG_SCALE as int),
        rotated_to(sh.ground_right, base_right_x(), ground_edge_y(pitch_cdeg), 0, TRIG_SCALE as int),
        0 <= p.x < SCREEN_WIDTH,
        0 <= p.y < SCREEN_HEIGHT,
    ensures
        covers_point_spec(sh, p),
{
    lemma_rdiv_err(PITCH_PIXELS_PER_DEGREE as int * pitch_cdeg, CDEG_PER_DEGREE as int);
    let px_ = p.x as int;
    let py_ = p.y as int;
    let hy_ = horizon_y(pitch_cdeg);
    let sy_ = sky_edge_y(pitch_cdeg);
    let gy_ = ground_edge_y(pitch_cdeg);
    assert(79 <= hy_ <= 241);
    assert(sy_ == hy_ - 640);
    assert(gy_ == hy_ + 640);
    lemma_rotate_identity(base_left_x(), hy_, CENTER_X as int, CENTER_Y as int);
    lemma_rotate_identity(base_right_x(), hy_, CENTER_X as int, CENTER_Y as int);
    lemma_rotate_identity(base_left_x(), sy_, CENTER_X as int, CENTER_Y as int);
    lemma_rotate_identity(base_right_x(), sy_, CENTER_X as int, CENTER_Y as int);
    lemma_rotate_identity(base_left_x(), gy_, CENTER_X as int, CENTER_Y as int);
    lemma_rotate_identity(base_right_x(), gy_, CENTER_X as int, CENTER_Y as int);
    assert(sh.horizon_left.x as int == -360 && sh.horizon_left.y as int == hy_);
    assert(sh.horizon_right.x as int == 840 && sh.horizon_right.y as int == hy_);
    assert(sh.sky_left.x as int == -360 && sh.sky_left.y as int == sy_);
    assert(sh.sky_right.x as int == 840 && sh.sky_right.y as int == sy_);
    assert(sh.ground_left.x as int == -360 && sh.ground_left.y as int == gy_);
    assert(sh.ground_right.x as int == 840 && sh.ground_right.y as int == gy_);
    let c1 = cross_i(-360, hy_, 840, hy_, px_, py_);
    let c2 = cross_i(840, hy_, 840, sy_, px_, py_);
    let c3 = cross_i(840, sy_, -360, hy_, px_, py_);
    let c4 = cross_i(-360, hy_, 840, sy_, px_, py_);
    let c5 = cross_i(840, sy_, -360, sy_, px_, py_);
    let c6 = cross_i(-360, sy_, -360, hy_, px_, py_);
    let c7 = cross_i(840, hy_, 840, gy_, px_, py_);
    let c8 = cross_i(840, gy_, -360, hy_, px_, py_);
    let c9 = cross_i(-360, hy_, 840, gy_, px_, py_);
    let c10 = cross_i(840, gy_, -360, gy_, px_, py_);
    let c11 = cross_i(-360, gy_, -360, hy_, px_, py_);
    assert(c1 == 1200 * (py_ - hy_)) by (nonlinear_arith)
        requires c1 == (840 - (-360)) * (py_ - hy_) - (hy_ - hy_) * (px_ - (-360));
    assert(c2 == 640 * (px_ - 840)) by (nonlinear_arith)
        requires c2 == (840 - 840) * (py_ - hy_) - (sy_ - hy_) * (px_ - 840), sy_ == hy_ - 640;
    assert(c3 == -1200 * (py_ - hy_) - 640 * px_ - 230400) by (nonlinear_arith)
        requires c3 == (-360 - 840) * (py_ - sy_) - (hy_ - sy_) * (px_ - 840), sy_ == hy_ - 640;
    assert(c4 == 1200 * (py_ - hy_) + 640 * px_ + 230400) by (nonlinear_arith)
        requires c4 == (840 - (-360)) * (py_ - hy_) - (sy_ - hy_) * (px_ - (-360)), sy_ == hy_ - 640;
    assert(c5 == -1200 * (py_ - hy_) - 768000) by (nonlinear_arith)
        requires c5 == (-360 - 840) * (py_ - sy_) - (sy_ - sy_) * (px_ - 840), sy_ == hy_ - 640;
    assert(c6 == -640 * (px_ + 360)) by (nonlinear_arith)
        requires c6 == (-360 - (-360)) * (py_ - sy_) - (hy_ - sy_) * (px_ - (-360)), sy_ == hy_ - 640;
    assert(c7 == -640 * (px_ - 840)) by (nonlinear_arith)
        requires c7 == (840 - 840) * (py_ - hy_) - (gy_ - hy_) * (px_ - 840), gy_ == hy_ + 640;
    assert(c8 == -1200 * (py_ - hy_) + 640 * px_ + 230400) by (nonlinear_arith)
        requires c8 == (-360 - 840) * (py_ - gy_) - (hy_ - gy_) * (px_ - 840), gy_ == hy_ + 640;
    assert(c9 == 1200 * (py_ - hy_) - 640 * px_ - 230400) by (nonlinear_arith)
        requires c9 == (840 - (-360)) * (py_ - hy_) - (gy_ - hy_) * (px_ - (-360)), gy_ == hy_ + 640;
    assert(c10 == -1200 * (py_ - hy_) + 768000) by (nonlinear_arith)
        requires c10 == (-360 - 840) * (py_ - gy_) - (gy_ - gy_) * (px_ - 840), gy_ == hy_ + 640;
    assert(c11 == 640 * (px_ + 360)) by (nonlinear_arith)
        requires c11 == (-360 - (-360)) * (py_ - gy_) - (hy_ - gy_) * (px_ - (-360)), gy_ == hy_ + 640;
    assert(cross_spec(sh.horizon_left, sh.horizon_right, p) == c1);
    assert(cross_spec(sh.horizon_right, sh.sky_right, p) == c2);
    assert(cross_spec(sh.sky_right, sh.horizon_left, p) == c3);
    assert(cross_spec(sh.horizon_left, sh.sky_right, p) == c4);
    assert(cross_spec(sh.sky_right, sh.sky_left, p) == c5);
    assert(cross_spec(sh.sky_left, sh.horizon_left, p) == c6);
    assert(cross_spec(sh.horizon_right, sh.ground_right, p) == c7);
    assert(cross_spec(sh.ground_right, sh.horizon_left, p) == c8);
    assert(cross_spec(sh.horizon_left, sh.ground_right, p) == c9);
    assert(cross_spec(sh.ground_right, sh.ground_left, p) == c10);
    assert(cross_spec(sh.ground_left, sh.horizon_left, p) == c11);
    if py_ <= hy_ {
        if c3 <= 0 {
            assert(tri_contains_spec(sh.horizon_left, sh.horizon_right, sh.sky_right, p));
        } else {
            assert(tri_contains_spec(sh.horizon_left, sh.sky_right, sh.sky_left, p));
        }
    } else {
        if c8 >= 0 {
            assert(tri_contains_spec(sh.horizon_left, sh.horizon_right, sh.ground_right, p));
        } else {
            assert(tri_contains_spec(sh.horizon_left, sh.ground_right, sh.ground_left, p));
        }
    }
}

/// With pitch ten degrees and four pixels per degree, the unrotated horizon
/// lies forty pixels below the screen center.
pub proof fn lemma_pitch_ten_degrees_offset()
    ensures
        pitch_offset_spec(1000) == 40,
        horizon_y(1000) == CENTER_Y as int + 40,
{
    assert(pitch_offset_spec(1000) == rdiv(4000, 100));
    assert(rdiv(4000, 100) == 4050int / 100);
    assert(4050int / 100 == 40);
}

/// With a level attitude (pitch and roll both zero) the horizon lies
/// exactly at the screen center line and the rotation moves no point: the
/// rotated sky and ground vertices equal the unrotated base points.
pub proof fn lemma_level_attitude_identity()
    ensures
        pitch_offset_spec(0) == 0,
        horizon_y(0) == CENTER_Y as int,
        rot_x(base_left_x(), horizon_y(0), CENTER_X as int, CENTER_Y as int, 0, TRIG_SCALE as int)
            == base_left_x(),
        rot_y(base_left_x(), horizon_y(0), CENTER_X as int, CENTER_Y as int, 0, TRIG_SCALE as int)
            == horizon_y(0),
        rot_x(base_right_x(), horizon_y(0), CENTER_X as int, CENTER_Y as int, 0, TRIG_SCALE as int)
            == base_right_x(),
        rot_y(base_right_x(), horizon_y(0), CENTER_X as int, CENTER_Y as int, 0, TRIG_SCALE as int)
            == horizon_y(0),
        rot_x(base_left_x(), sky_edge_y(0), CENTER_X as int, CENTER_Y as int, 0, TRIG_SCALE as int)
            == base_left_x(),
        rot_y(base_left_x(), sky_edge_y(0), CENTER_X as int, CENTER_Y as int, 0, TRIG_SCALE as int)
            == sky_edge_y(0),
        rot_x(base_right_x(), sky_edge_y(0), CENTER_X as int, CENTER_Y as int, 0, TRIG_SCALE as int)
            == base_right_x(),
        rot_y(base_right_x(), sky_edge_y(0), CENTER_X as int, CENTER_Y as int, 0, TRIG_SCALE as int)
            == sky_edge_y(0),
        rot_x(base_left_x(), ground_edge_y(0), CENTER_X as int, CENTER_Y as int, 0, TRIG_SCALE as int)
            == base_left_x(),
        rot_y(base_left_x(), ground_edge_y(0), CENTER_X as int, CENTER_Y as int, 0, TRIG_SCALE as int)
            == ground_edge_y(0),
        rot_x(base_right_x(), ground_edge_y(0), CENTER_X as int, CENTER_Y as int, 0, TRIG_SCALE as int)
            == base_right_x(),
        rot_y(base_right_x(), ground_edge_y(0), CENTER_X as int, CENTER_Y as int, 0, TRIG_SCALE as int)
            == ground_edge_y(0),
{
    assert(pitch_offset_spec(0) == rdiv(0, 100));
    assert(rdiv(0, 100) == 50int / 100);
    assert(50int / 100 == 0);
    lemma_rotate_identity(base_left_x(), horizon_y(0), CENTER_X as int, CENTER_Y as int);
    lemma_rotate_identity(base_right_x(), horizon_y(0), CENTER_X as int, CENTER_Y as int);
    lemma_rotate_identity(base_left_x(), sky_edge_y(0), CENTER_X as int, CENTER_Y as int);
    lemma_rotate_identity(base_right_x(), sky_edge_y(0), CENTER_X as int, CENTER_Y as int);
    lemma_rotate_identity(base_left_x(), ground_edge_y(0), CENTER_X as int, CENTER_Y as int);
    lemma_rotate_identity(base_right_x(), ground_edge_y(0), CENTER_X as int, CENTER_Y as int);
}

} // verus!
