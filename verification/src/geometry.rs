//! The affine screen mapping.
//!
//! A mathematical point `(x, y)` lands on the screen at
//! `(left + (x - x_min) * width / (x_max - x_min),
//!   bottom - (y + 1) * height / 2)`, every quantity in fixed-point
//! subunits, divisions rounding toward zero. The horizontal mapping
//! stretches the domain `[x_min, x_max]` across the rectangle; the
//! vertical one pins `y = -1` to the bottom edge and `y = 1` to the
//! top, so values beyond that land outside the rectangle, unclamped.

use vstd::arithmetic::div_mod::{
    lemma_div_is_ordered, lemma_div_multiples_vanish, lemma_div_pos_is_pos,
    lemma_fundamental_div_mod, lemma_mod_division_less_than_divisor,
};
use vstd::arithmetic::mul::{
    lemma_mul_is_commutative, lemma_mul_is_distributive_sub_other_way, lemma_mul_nonnegative,
};
use vstd::prelude::*;

use crate::fixed::{div_trunc, in_range, in_y_range, mul_div, SCALE};

verus! {

/// A screen-space rectangle in fixed-point pixel coordinates, the top
/// edge above the bottom one as screens count rows.
pub struct Rect {
    pub left: i64,
    pub top: i64,
    pub right: i64,
    pub bottom: i64,
}

impl Rect {
    /// Edges within coordinate range and the rectangle not degenerate.
    pub open spec fn wf(self) -> bool {
        &&& in_range(self.left as int)
        &&& in_range(self.top as int)
        &&& in_range(self.right as int)
        &&& in_range(self.bottom as int)
        &&& self.left < self.right
        &&& self.top < self.bottom
    }

    pub open spec fn spec_width(self) -> int {
        self.right - self.left
    }

    pub open spec fn spec_height(self) -> int {
        self.bottom - self.top
    }

    pub fn width(&self) -> (w: i64)
        requires
            self.wf(),
        ensures
            w == self.spec_width(),
    {
        self.right - self.left
    }

    pub fn height(&self) -> (h: i64)
        requires
            self.wf(),
        ensures
            h == self.spec_height(),
    {
        self.bottom - self.top
    }
}

/// A point in screen space, in fixed-point pixel coordinates.
#[derive(Clone, Copy, Debug, PartialEq, Eq, Structural)]
pub struct ScreenPoint {
    pub x: i64,
    pub y: i64,
}

/// Where the vertical line `x` lands horizontally.
pub open spec fn map_x_spec(rect: Rect, x_min: int, x_max: int, x: int) -> int
    recommends
        x_min < x_max,
{
    rect.left + div_trunc((x - x_min) * rect.spec_width(), x_max - x_min)
}

/// Where the horizontal line `y` lands vertically.
pub open spec fn map_y_spec(rect: Rect, y: int) -> int {
    rect.bottom - div_trunc((y + SCALE) * rect.spec_height(), 2 * SCALE)
}

/// The horizontal inverse: the `x` whose image is `sx`, up to the
/// rounding the forward mapping did.
pub open spec fn unmap_x_spec(rect: Rect, x_min: int, x_max: int, sx: int) -> int {
    x_min + div_trunc((sx - rect.left) * (x_max - x_min), rect.spec_width())
}

/// The vertical inverse: the `y` whose image is `sy`, up to rounding.
pub open spec fn unmap_y_spec(rect: Rect, sy: int) -> int {
    div_trunc((rect.bottom - sy) * (2 * SCALE), rect.spec_height()) - SCALE
}

/// Maps a mathematical point to screen space.
pub fn map_point(rect: &Rect, x_min: i64, x_max: i64, x: i64, y: i64) -> (p: ScreenPoint)
    requires
        rect.wf(),
        in_range(x_min as int),
        in_range(x_max as int),
        in_range(x as int),
        in_y_range(y as int),
        x_min < x_max,
    ensures
        p.x == map_x_spec(*rect, x_min as int, x_max as int, x as int),
        p.y == map_y_spec(*rect, y as int),
{
    let w = rect.width();
    let h = rect.height();
    let sx = rect.left + mul_div(x - x_min, w, x_max - x_min);
    let sy = rect.bottom - mul_div(y + SCALE, h, 2 * SCALE);
    ScreenPoint { x: sx, y: sy }
}

/// Maps a screen-space point back to a mathematical one.
pub fn unmap_point(rect: &Rect, x_min: i64, x_max: i64, p: ScreenPoint) -> (m: (i64, i64))
    requires
        rect.wf(),
        in_range(x_min as int),
        in_range(x_max as int),
        in_range(p.x as int),
        in_range(p.y as int),
        x_min < x_max,
    ensures
        m.0 == unmap_x_spec(*rect, x_min as int, x_max as int, p.x as int),
        m.1 == unmap_y_spec(*rect, p.y as int),
{
    let w = rect.width();
    let h = rect.height();
    let x = x_min + mul_div(p.x - rect.left, x_max - x_min, w);
    let y = mul_div(rect.bottom - p.y, 2 * SCALE, h) - SCALE;
    (x, y)
}

/// A line segment between two screen-space points.
#[derive(Clone, Copy, Debug, PartialEq, Eq, Structural)]
pub struct Segment {
    pub a: ScreenPoint,
    pub b: ScreenPoint,
}

/// Connects consecutive points with segments: one fewer segment than
/// there are points, the i-th running from the i-th point to the next.
pub fn polyline_segments(pts: &Vec<ScreenPoint>) -> (segs: Vec<Segment>)
    requires
        pts@.len() >= 1,
    ensures
        segs@.len() == pts@.len() - 1,
        forall|i: int|
            0 <= i < segs@.len() ==> segs@[i].a == pts@[i] && segs@[i].b == pts@[i + 1],
{
    let last = pts.len() - 1;
    let mut segs: Vec<Segment> = Vec::new();
    let mut i: usize = 0;
    while i < last
        invariant
            0 <= i <= last,
            last + 1 == pts@.len(),
            segs@.len() == i,
            forall|j: int|
                0 <= j < segs@.len() ==> segs@[j].a == pts@[j] && segs@[j].b == pts@[j + 1],
        decreases last - i,
    {
        segs.push(Segment { a: pts[i], b: pts[i + 1] });
        i = i + 1;
    }
    segs
}

/// Scaling an offset `d` into `w` parts of a `s`-wide whole and back
/// loses at most one part's worth of `d`: the quotient of the two
/// rounded rescalings sits within `ceil(s / w)` below `d`.
proof fn lemma_div_round_trip(d: int, w: int, s: int)
    requires
        0 <= d,
        1 <= w,
        1 <= s,
    ensures
        div_trunc(div_trunc(d * w, s) * s, w) <= d,
        d - div_trunc(div_trunc(d * w, s) * s, w) <= (s + w - 1) / w,
{
    lemma_mul_nonnegative(d, w);
    let n1 = d * w;
    let q = n1 / s;
    let r = n1 % s;
    lemma_fundamental_div_mod(n1, s);
    lemma_mod_division_less_than_divisor(n1, s);
    lemma_div_pos_is_pos(n1, s);
    assert(div_trunc(n1, s) == q);
    lemma_mul_nonnegative(q, s);
    assert(q * s == s * q) by {
        lemma_mul_is_commutative(q, s);
    }
    let n2 = q * s;
    assert(n2 == n1 - r);
    assert(div_trunc(n2, w) == n2 / w);
    // Upper bound: n2 <= n1, so n2 / w <= n1 / w == d.
    lemma_div_is_ordered(n2, n1, w);
    lemma_div_multiples_vanish(d, w);
    assert(w * d == d * w) by {
        lemma_mul_is_commutative(w, d);
    }
    assert(n2 / w <= d);
    // Lower bound: with e = (s + w - 1) / w, e * w >= s > r,
    // so (d - e) * w <= n1 - r == n2, hence d - e <= n2 / w.
    let e = (s + w - 1) / w;
    lemma_fundamental_div_mod(s + w - 1, w);
    lemma_mod_division_less_than_divisor(s + w - 1, w);
    assert(w * e == e * w) by {
        lemma_mul_is_commutative(w, e);
    }
    assert(e * w >= s);
    assert((d - e) * w == d * w - e * w) by {
        lemma_mul_is_distributive_sub_other_way(w, d, e);
    }
    assert((d - e) * w <= n2);
    lemma_div_is_ordered((d - e) * w, n2, w);
    lemma_div_multiples_vanish(d - e, w);
    assert(w * (d - e) == (d - e) * w) by {
        lemma_mul_is_commutative(w, d - e);
    }
    assert(d - e <= n2 / w);
}

/// Mapping a point of the domain to the screen and back returns it, up
/// to the mapping's rounding: never above the point it started from,
/// and never more than one pixel's worth of domain below it.
pub proof fn lemma_unmap_map_x(rect: Rect, x_min: int, x_max: int, x: int)
    requires
        rect.wf(),
        x_min < x_max,
        x_min <= x <= x_max,
    ensures
        unmap_x_spec(rect, x_min, x_max, map_x_spec(rect, x_min, x_max, x)) <= x,
        x - unmap_x_spec(rect, x_min, x_max, map_x_spec(rect, x_min, x_max, x)) <= (x_max - x_min
            + rect.spec_width() - 1) / rect.spec_width(),
{
    let d = x - x_min;
    let w = rect.spec_width();
    let s = x_max - x_min;
    lemma_mul_nonnegative(d, w);
    lemma_div_pos_is_pos(d * w, s);
    assert(map_x_spec(rect, x_min, x_max, x) - rect.left == div_trunc(d * w, s));
    lemma_div_round_trip(d, w, s);
}

/// The vertical counterpart: mapping `y` to the screen and back
/// returns it up to the rounding, for any `y` the bottom edge or
/// above, that is `y >= -1` in mathematical units.
pub proof fn lemma_unmap_map_y(rect: Rect, y: int)
    requires
        rect.wf(),
        -SCALE <= y,
    ensures
        unmap_y_spec(rect, map_y_spec(rect, y)) <= y,
        y - unmap_y_spec(rect, map_y_spec(rect, y)) <= (2 * SCALE + rect.spec_height() - 1)
            / rect.spec_height(),
{
    let d = y + SCALE;
    let h = rect.spec_height();
    let s = 2 * SCALE;
    lemma_mul_nonnegative(d, h);
    lemma_div_pos_is_pos(d * h, s);
    assert(rect.bottom - map_y_spec(rect, y) == div_trunc(d * h, s));
    lemma_div_round_trip(d, h, s);
}

} // verus!
