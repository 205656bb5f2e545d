//! Screen-space points and rotation about an arbitrary center.
//!
//! Angles enter the library as fixed-point sine/cosine pairs: the value 1.0
//! is represented by `TRIG_SCALE`. The rotation itself is exact integer
//! arithmetic with round-to-nearest division, so every property of it is
//! proved here; only the evaluation of sine and cosine happens outside.

use vstd::prelude::*;

verus! {

/// Fixed-point scale of trigonometric values: 1.0 is stored as `TRIG_SCALE`.
pub const TRIG_SCALE: i64 = 65536;

/// How far `sin*sin + cos*cos` may stray from `TRIG_SCALE * TRIG_SCALE`
/// in a well-formed pair (rounding of the two fixed-point values).
pub const TRIG_TOL: i64 = 196608;

/// Largest offset from the rotation center that `rotate_point` accepts.
pub const MAX_COORD_DELTA: i64 = 4096;

/// Largest magnitude of a rotation-center coordinate.
pub const MAX_CENTER_COORD: i64 = 1000000;

/// A screen-space coordinate pair.
#[derive(Clone, Copy, PartialEq, Eq, Structural, Debug)]
pub struct Point {
    pub x: i32,
    pub y: i32,
}

/// A fixed-point sine/cosine pair describing one rotation angle.
#[derive(Clone, Copy, PartialEq, Eq, Structural, Debug)]
pub struct RollTrig {
    pub sin_q: i64,
    pub cos_q: i64,
}

/// Division of `t` by `d` rounded to the nearest integer, ties away from zero:
/// the rounding rule of the rotation transform.
pub open spec fn rdiv(t: int, d: int) -> int {
    if t >= 0 {
        (t + d / 2) / d
    } else {
        -((-t + d / 2) / d)
    }
}

/// The x coordinate after rotating `(px, py)` about `(cx, cy)` by the angle
/// whose fixed-point sine and cosine are `s` and `c`.
pub open spec fn rot_x(px: int, py: int, cx: int, cy: int, s: int, c: int) -> int {
    cx + rdiv((px - cx) * c - (py - cy) * s, TRIG_SCALE as int)
}

/// The y coordinate of the same rotation.
pub open spec fn rot_y(px: int, py: int, cx: int, cy: int, s: int, c: int) -> int {
    cy + rdiv((px - cx) * s + (py - cy) * c, TRIG_SCALE as int)
}

impl RollTrig {
    /// The pair lies on the fixed-point unit circle, up to rounding.
    pub open spec fn wf(self) -> bool {
        &&& -TRIG_SCALE <= self.sin_q <= TRIG_SCALE
        &&& -TRIG_SCALE <= self.cos_q <= TRIG_SCALE
        &&& TRIG_SCALE * TRIG_SCALE - TRIG_TOL <= self.sin_q * self.sin_q + self.cos_q
            * self.cos_q
        &&& self.sin_q * self.sin_q + self.cos_q * self.cos_q <= TRIG_SCALE * TRIG_SCALE
            + TRIG_TOL
    }

    /// Accepts a pair only if it is a plausible scaled sine/cosine pair.
    pub fn new(sin_q: i64, cos_q: i64) -> (r: Option<RollTrig>)
        ensures
            match r {
                Some(t) => t == (RollTrig { sin_q, cos_q }) && t.wf(),
                None => !(RollTrig { sin_q, cos_q }).wf(),
            },
    {
        if sin_q < -TRIG_SCALE || sin_q > TRIG_SCALE || cos_q < -TRIG_SCALE || cos_q > TRIG_SCALE {
            return None;
        }
        proof {
            assert(sin_q * sin_q <= TRIG_SCALE * TRIG_SCALE && sin_q * sin_q >= 0)
                by (nonlinear_arith)
                requires -TRIG_SCALE <= sin_q <= TRIG_SCALE;
            assert(cos_q * cos_q <= TRIG_SCALE * TRIG_SCALE && cos_q * cos_q >= 0)
                by (nonlinear_arith)
                requires -TRIG_SCALE <= cos_q <= TRIG_SCALE;
        }
        let m: i64 = sin_q * sin_q + cos_q * cos_q;
        if m < TRIG_SCALE * TRIG_SCALE - TRIG_TOL || m > TRIG_SCALE * TRIG_SCALE + TRIG_TOL {
            return None;
        }
        Some(RollTrig { sin_q, cos_q })
    }

    /// The pair of the opposite angle: same cosine, negated sine.
    pub fn negated(self) -> (r: RollTrig)
        requires
            self.wf(),
        ensures
            r.sin_q == -self.sin_q,
            r.cos_q == self.cos_q,
            r.wf(),
    {
        proof {
            assert((-self.sin_q) * (-self.sin_q) == self.sin_q * self.sin_q) by (nonlinear_arith);
        }
        RollTrig { sin_q: -self.sin_q, cos_q: self.cos_q }
    }
}

/// The rounded quotient differs from the exact one by at most half a unit:
/// `d * rdiv(t, d)` stays within `d/2` of `t`.
pub proof fn lemma_rdiv_err(t: int, d: int)
    requires
        1 <= d,
    ensures
        -d <= 2 * (d * rdiv(t, d) - t),
        2 * (d * rdiv(t, d) - t) <= d,
{
    let h = d / 2;
    vstd::arithmetic::div_mod::lemma_fundamental_div_mod(d, 2);
    vstd::arithmetic::div_mod::lemma_mod_bound(d, 2);
    if t >= 0 {
        let q = (t + h) / d;
        let m = (t + h) % d;
        vstd::arithmetic::div_mod::lemma_fundamental_div_mod(t + h, d);
        vstd::arithmetic::div_mod::lemma_mod_bound(t + h, d);
        assert(rdiv(t, d) == q);
        assert(d * rdiv(t, d) == d * q) by (nonlinear_arith)
            requires rdiv(t, d) == q;
        assert(d * q - t == h - m);
    } else {
        let q = (-t + h) / d;
        let m = (-t + h) % d;
        vstd::arithmetic::div_mod::lemma_fundamental_div_mod(-t + h, d);
        vstd::arithmetic::div_mod::lemma_mod_bound(-t + h, d);
        assert(rdiv(t, d) == -q);
        assert(d * rdiv(t, d) == -(d * q)) by (nonlinear_arith)
            requires rdiv(t, d) == -q;
        assert(d * q == -t + h - m);
    }
}

/// Rounded division of `t` by a positive `d`, ties away from zero.
pub fn rounded_div(t: i64, d: i64) -> (r: i64)
    requires
        1 <= d <= 100000,
        -1000000000000 <= t <= 1000000000000,
    ensures
        r as int == rdiv(t as int, d as int),
{
    if t >= 0 {
        let q: u64 = ((t as u64) + (d as u64) / 2) / (d as u64);
        q as i64
    } else {
        let q: u64 = (((-t) as u64) + (d as u64) / 2) / (d as u64);
        -(q as i64)
    }
}

/// Rotates `p` about `center` by the angle whose fixed-point sine and cosine
/// form `t`, rounding each coordinate to the nearest integer.
pub fn rotate_point(p: Point, center: Point, t: RollTrig) -> (r: Point)
    requires
        t.wf(),
        -MAX_COORD_DELTA <= p.x as int - center.x as int <= MAX_COORD_DELTA,
        -MAX_COORD_DELTA <= p.y as int - center.y as int <= MAX_COORD_DELTA,
        -MAX_CENTER_COORD <= center.x as int <= MAX_CENTER_COORD,
        -MAX_CENTER_COORD <= center.y as int <= MAX_CENTER_COORD,
    ensures
        r.x as int == rot_x(p.x as int, p.y as int, center.x as int, center.y as int, t.sin_q as int, t.cos_q as int),
        r.y as int == rot_y(p.x as int, p.y as int, center.x as int, center.y as int, t.sin_q as int, t.cos_q as int),
{
    let dx: i64 = p.x as i64 - center.x as i64;
    let dy: i64 = p.y as i64 - center.y as i64;
    proof {
        assert(-268435456 <= dx * t.cos_q <= 268435456) by (nonlinear_arith)
            requires -4096 <= dx <= 4096, -65536 <= t.cos_q <= 65536;
        assert(-268435456 <= dy * t.sin_q <= 268435456) by (nonlinear_arith)
            requires -4096 <= dy <= 4096, -65536 <= t.sin_q <= 65536;
        assert(-268435456 <= dx * t.sin_q <= 268435456) by (nonlinear_arith)
            requires -4096 <= dx <= 4096, -65536 <= t.sin_q <= 65536;
        assert(-268435456 <= dy * t.cos_q <= 268435456) by (nonlinear_arith)
            requires -4096 <= dy <= 4096, -65536 <= t.cos_q <= 65536;
    }
    let tx: i64 = dx * t.cos_q - dy * t.sin_q;
    let ty: i64 = dx * t.sin_q + dy * t.cos_q;
    let qx: i64 = rounded_div(tx, TRIG_SCALE);
    let qy: i64 = rounded_div(ty, TRIG_SCALE);
    proof {
        lemma_rdiv_err(tx as int, TRIG_SCALE as int);
        lemma_rdiv_err(ty as int, TRIG_SCALE as int);
    }
    let rx: i64 = center.x as i64 + qx;
    let ry: i64 = center.y as i64 + qy;
    Point { x: rx as i32, y: ry as i32 }
}

/// Rotating by an angle and then by its opposite returns every coordinate
/// to within one pixel of where it started: the two roundings and the
/// fixed-point unit-circle tolerance together stay below a pixel and a half.
#[verifier::rlimit(60)]
pub proof fn lemma_rotate_round_trip(px: int, py: int, cx: int, cy: int, s: int, c: int)
    requires
        -MAX_COORD_DELTA <= px - cx <= MAX_COORD_DELTA,
        -MAX_COORD_DELTA <= py - cy <= MAX_COORD_DELTA,
        -TRIG_SCALE <= s <= TRIG_SCALE,
        -TRIG_SCALE <= c <= TRIG_SCALE,
        TRIG_SCALE * TRIG_SCALE - TRIG_TOL <= s * s + c * c,
        s * s + c * c <= TRIG_SCALE * TRIG_SCALE + TRIG_TOL,
    ensures
        -1 <= rot_x(
            rot_x(px, py, cx, cy, s, c),
            rot_y(px, py, cx, cy, s, c),
            cx,
            cy,
            -s,
            c,
        ) - px <= 1,
        -1 <= rot_y(
            rot_x(px, py, cx, cy, s, c),
            rot_y(px, py, cx, cy, s, c),
            cx,
            cy,
            -s,
            c,
        ) - py <= 1,
{
    let sc = TRIG_SCALE as int;
    let dx = px - cx;
    let dy = py - cy;
    let tx = dx * c - dy * s;
    let ty = dx * s + dy * c;
    let u = rdiv(tx, sc);
    let v = rdiv(ty, sc);
    lemma_rdiv_err(tx, sc);
    lemma_rdiv_err(ty, sc);
    let e1 = sc * u - tx;
    let e2 = sc * v - ty;
    assert(-32768 <= e1 <= 32768);
    assert(-32768 <= e2 <= 32768);
    let x1 = rot_x(px, py, cx, cy, s, c);
    let y1 = rot_y(px, py, cx, cy, s, c);
    assert(x1 - cx == u);
    assert(y1 - cy == v);
    let wx = (x1 - cx) * c - (y1 - cy) * (-s);
    let wy = (x1 - cx) * (-s) + (y1 - cy) * c;
    assert(wx == u * c + v * s) by (nonlinear_arith)
        requires x1 - cx == u, y1 - cy == v, wx == (x1 - cx) * c - (y1 - cy) * (-s);
    assert(wy == v * c - u * s) by (nonlinear_arith)
        requires x1 - cx == u, y1 - cy == v, wy == (x1 - cx) * (-s) + (y1 - cy) * c;
    let rx2 = rdiv(wx, sc);
    let ry2 = rdiv(wy, sc);
    lemma_rdiv_err(wx, sc);
    lemma_rdiv_err(wy, sc);
    let e3 = sc * rx2 - wx;
    let e4 = sc * ry2 - wy;
    assert(-32768 <= e3 <= 32768);
    assert(-32768 <= e4 <= 32768);
    assert(rot_x(x1, y1, cx, cy, -s, c) == cx + rx2);
    assert(rot_y(x1, y1, cx, cy, -s, c) == cy + ry2);
    let m = s * s + c * c;
    assert(sc * wx == (dx * c - dy * s + e1) * c + (dx * s + dy * c + e2) * s)
        by (nonlinear_arith)
        requires
            wx == u * c + v * s,
            sc * u == dx * c - dy * s + e1,
            sc * v == dx * s + dy * c + e2;
    assert((dx * c - dy * s + e1) * c + (dx * s + dy * c + e2) * s == dx * m + c * e1 + s * e2)
        by (nonlinear_arith)
        requires
            m == s * s + c * c;
    assert(sc * wy == (dx * s + dy * c + e2) * c - (dx * c - dy * s + e1) * s)
        by (nonlinear_arith)
        requires
            wy == v * c - u * s,
            sc * u == dx * c - dy * s + e1,
            sc * v == dx * s + dy * c + e2;
    assert((dx * s + dy * c + e2) * c - (dx * c - dy * s + e1) * s == dy * m - s * e1 + c * e2)
        by (nonlinear_arith)
        requires
            m == s * s + c * c;
    assert(-2147483648 <= c * e1 <= 2147483648) by (nonlinear_arith)
        requires -65536 <= c <= 65536, -32768 <= e1 <= 32768;
    assert(-2147483648 <= s * e2 <= 2147483648) by (nonlinear_arith)
        requires -65536 <= s <= 65536, -32768 <= e2 <= 32768;
    assert(-2147483648 <= s * e1 <= 2147483648) by (nonlinear_arith)
        requires -65536 <= s <= 65536, -32768 <= e1 <= 32768;
    assert(-2147483648 <= c * e2 <= 2147483648) by (nonlinear_arith)
        requires -65536 <= c <= 65536, -32768 <= e2 <= 32768;
    assert(dx * m == dx * (m - 4294967296) + 4294967296 * dx) by (nonlinear_arith);
    assert(dy * m == dy * (m - 4294967296) + 4294967296 * dy) by (nonlinear_arith);
    assert(-805306368 <= dx * (m - 4294967296) <= 805306368) by (nonlinear_arith)
        requires -4096 <= dx <= 4096, -196608 <= m - 4294967296 <= 196608;
    assert(-805306368 <= dy * (m - 4294967296) <= 805306368) by (nonlinear_arith)
        requires -4096 <= dy <= 4096, -196608 <= m - 4294967296 <= 196608;
    assert(4294967296 * rx2 == sc * wx + 65536 * e3);
    assert(4294967296 * ry2 == sc * wy + 65536 * e4);
    assert(4294967296 * (cx + rx2 - px) == dx * (m - 4294967296) + c * e1 + s * e2 + 65536 * e3);
    assert(4294967296 * (cy + ry2 - py) == dy * (m - 4294967296) - s * e1 + c * e2 + 65536 * e4);
    assert(-1 <= cx + rx2 - px <= 1);
    assert(-1 <= cy + ry2 - py <= 1);
}

/// Twice the signed area of the triangle `(a, b, p)` over raw coordinates:
/// positive when `(px, py)` lies left of the directed edge from a to b.
pub open spec fn cross_i(ax: int, ay: int, bx: int, by: int, px: int, py: int) -> int {
    (bx - ax) * (py - ay) - (by - ay) * (px - ax)
}

/// Twice the signed area of the triangle `(a, b, p)`: positive when `p`
/// lies left of the directed edge from `a` to `b`.
pub open spec fn cross_spec(a: Point, b: Point, p: Point) -> int {
    cross_i(a.x as int, a.y as int, b.x as int, b.y as int, p.x as int, p.y as int)
}

/// `p` lies inside or on the boundary of the triangle `(a, b, c)`: it is on
/// the same side of (or on) all three directed edges.
pub open spec fn tri_contains_spec(a: Point, b: Point, c: Point, p: Point) -> bool {
    let d1 = cross_spec(a, b, p);
    let d2 = cross_spec(b, c, p);
    let d3 = cross_spec(c, a, p);
    (d1 >= 0 && d2 >= 0 && d3 >= 0) || (d1 <= 0 && d2 <= 0 && d3 <= 0)
}

/// Every coordinate of the point is small enough for exact cross products.
pub open spec fn in_coord_range(p: Point) -> bool {
    &&& -100000 <= p.x <= 100000
    &&& -100000 <= p.y <= 100000
}

/// Twice the signed area of the triangle `(a, b, p)`.
fn cross_exec(a: Point, b: Point, p: Point) -> (r: i64)
    requires
        in_coord_range(a),
        in_coord_range(b),
        in_coord_range(p),
    ensures
        r as int == cross_spec(a, b, p),
{
    let abx: i64 = b.x as i64 - a.x as i64;
    let aby: i64 = b.y as i64 - a.y as i64;
    let apx: i64 = p.x as i64 - a.x as i64;
    let apy: i64 = p.y as i64 - a.y as i64;
    proof {
        assert(-40000000000 <= abx * apy <= 40000000000) by (nonlinear_arith)
            requires -200000 <= abx <= 200000, -200000 <= apy <= 200000;
        assert(-40000000000 <= aby * apx <= 40000000000) by (nonlinear_arith)
            requires -200000 <= aby <= 200000, -200000 <= apx <= 200000;
    }
    abx * apy - aby * apx
}

/// Whether `p` lies inside or on the boundary of the triangle `(a, b, c)`.
pub fn triangle_contains(a: Point, b: Point, c: Point, p: Point) -> (r: bool)
    requires
        in_coord_range(a),
        in_coord_range(b),
        in_coord_range(c),
        in_coord_range(p),
    ensures
        r == tri_contains_spec(a, b, c, p),
{
    let d1: i64 = cross_exec(a, b, p);
    let d2: i64 = cross_exec(b, c, p);
    let d3: i64 = cross_exec(c, a, p);
    (d1 >= 0 && d2 >= 0 && d3 >= 0) || (d1 <= 0 && d2 <= 0 && d3 <= 0)
}

/// Rotation by angle zero (sine 0, cosine 1) leaves every point unchanged.
pub proof fn lemma_rotate_identity(px: int, py: int, cx: int, cy: int)
    requires
        -MAX_COORD_DELTA <= px - cx <= MAX_COORD_DELTA,
        -MAX_COORD_DELTA <= py - cy <= MAX_COORD_DELTA,
    ensures
        rot_x(px, py, cx, cy, 0, TRIG_SCALE as int) == px,
        rot_y(px, py, cx, cy, 0, TRIG_SCALE as int) == py,
{
    lemma_rdiv_err((px - cx) * (TRIG_SCALE as int), TRIG_SCALE as int);
    lemma_rdiv_err((py - cy) * (TRIG_SCALE as int), TRIG_SCALE as int);
}

} // verus!
