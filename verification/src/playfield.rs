//! The playfield rectangle and the confinement of positions to it.

use vstd::prelude::*;

verus! {

/// A position in world coordinates, in coordinate steps, origin at the
/// playfield's center.
#[derive(Clone, Copy, Debug, PartialEq, Eq, Structural)]
pub struct Point {
    pub x: i64,
    pub y: i64,
}

/// The rectangle in which a session is played, centered at the origin. Its
/// sides are given in coordinate steps.
#[derive(Clone, Copy, Debug, PartialEq, Eq, Structural)]
pub struct Playfield {
    pub width: u32,
    pub height: u32,
}

/// The lowest coordinate that the center of a circle of the given radius may
/// take along an axis of the given extent: half the extent below the origin,
/// plus the radius. Half of an odd extent is rounded down.
pub open spec fn axis_min(extent: u32, radius: u32) -> int {
    -(extent as int / 2) + radius as int
}

/// The highest coordinate that the center of a circle of the given radius may
/// take along an axis of the given extent: half the extent above the origin,
/// minus the radius. Half of an odd extent is rounded down.
pub open spec fn axis_max(extent: u32, radius: u32) -> int {
    extent as int / 2 - radius as int
}

/// `v` moved into `[lo, hi]`. Where the range is empty, because `hi` is
/// below `lo`, every `v` goes to `lo`: the result of a clamp is always left
/// where it is by a second one.
pub open spec fn clamp_axis(v: int, lo: int, hi: int) -> int {
    if v < lo || hi < lo {
        lo
    } else if v > hi {
        hi
    } else {
        v
    }
}

/// `v` lies outside `[lo, hi]`.
pub open spec fn outside_axis(v: int, lo: int, hi: int) -> bool {
    v < lo || v > hi
}

impl Playfield {
    /// A circle of this radius has room in the playfield along both axes:
    /// the allowed range of its center is not empty.
    pub open spec fn fits(&self, radius: u32) -> bool {
        &&& axis_min(self.width, radius) <= axis_max(self.width, radius)
        &&& axis_min(self.height, radius) <= axis_max(self.height, radius)
    }

    /// The center of a circle of this radius is inside the allowed range on
    /// both axes, so the circle is inside the playfield or touches its edge.
    pub open spec fn holds(&self, p: Point, radius: u32) -> bool {
        &&& axis_min(self.width, radius) <= p.x <= axis_max(self.width, radius)
        &&& axis_min(self.height, radius) <= p.y <= axis_max(self.height, radius)
    }

    /// The position with each coordinate clamped, by itself, into the range
    /// allowed to the center of a circle of this radius.
    pub open spec fn confined(&self, p: Point, radius: u32) -> Point {
        Point {
            x: clamp_axis(
                p.x as int,
                axis_min(self.width, radius),
                axis_max(self.width, radius),
            ) as i64,
            y: clamp_axis(
                p.y as int,
                axis_min(self.height, radius),
                axis_max(self.height, radius),
            ) as i64,
        }
    }

    /// The center of a circle of this radius has left the allowed range
    /// along the horizontal axis.
    pub open spec fn crossed_x(&self, p: Point, radius: u32) -> bool {
        outside_axis(p.x as int, axis_min(self.width, radius), axis_max(self.width, radius))
    }

    /// The center of a circle of this radius has left the allowed range
    /// along the vertical axis.
    pub open spec fn crossed_y(&self, p: Point, radius: u32) -> bool {
        outside_axis(p.y as int, axis_min(self.height, radius), axis_max(self.height, radius))
    }

    /// Clamps a position so that a circle of this radius around it stays in
    /// the playfield. Where the circle fits, the result is in range on both
    /// axes, however far out the position was. On an axis too short for the
    /// circle the result is the lower bound of that axis.
    pub fn confine(&self, p: Point, radius: u32) -> (r: Point)
        ensures
            r == self.confined(p, radius),
            self.fits(radius) ==> self.holds(r, radius),
    {
        let (x_min, x_max) = axis_range(self.width, radius);
        let (y_min, y_max) = axis_range(self.height, radius);
        Point { x: clamp(p.x, x_min, x_max), y: clamp(p.y, y_min, y_max) }
    }

    /// Tells on which axes the center of a circle of this radius has left
    /// the allowed range.
    pub fn crossings(&self, p: Point, radius: u32) -> (r: (bool, bool))
        ensures
            r.0 == self.crossed_x(p, radius),
            r.1 == self.crossed_y(p, radius),
    {
        let (x_min, x_max) = axis_range(self.width, radius);
        let (y_min, y_max) = axis_range(self.height, radius);
        (p.x < x_min || p.x > x_max, p.y < y_min || p.y > y_max)
    }
}

/// The range allowed to the center of a circle of the given radius along an
/// axis of the given extent.
pub fn axis_range(extent: u32, radius: u32) -> (r: (i64, i64))
    ensures
        r.0 == axis_min(extent, radius),
        r.1 == axis_max(extent, radius),
{
    let half: i64 = (extent / 2) as i64;
    (-half + radius as i64, half - radius as i64)
}

/// Clamps one coordinate into `[lo, hi]`; into `lo` where the range is
/// empty.
pub fn clamp(v: i64, lo: i64, hi: i64) -> (r: i64)
    ensures
        r == clamp_axis(v as int, lo as int, hi as int),
{
    if v < lo || hi < lo {
        lo
    } else if v > hi {
        hi
    } else {
        v
    }
}

/// Confining a position twice gives what confining it once gives, for every
/// position, radius and playfield.
pub proof fn lemma_confinement_idempotent(field: Playfield, p: Point, radius: u32)
    ensures
        field.confined(field.confined(p, radius), radius) == field.confined(p, radius),
{
}

/// A confined position is inside the allowed range on both axes, however far
/// outside the position was, wherever the circle fits in the playfield.
pub proof fn lemma_confinement_safe(field: Playfield, p: Point, radius: u32)
    requires
        field.fits(radius),
    ensures
        field.holds(field.confined(p, radius), radius),
{
}

/// Clamping one axis does not depend on the other: the horizontal result is
/// a function of the horizontal input alone, and likewise the vertical.
pub proof fn lemma_confinement_per_axis(field: Playfield, p: Point, q: Point, radius: u32)
    ensures
        p.x == q.x ==> field.confined(p, radius).x == field.confined(q, radius).x,
        p.y == q.y ==> field.confined(p, radius).y == field.confined(q, radius).y,
{
}

/// A position that is in range is left where it is.
pub proof fn lemma_confinement_fixes_inside(field: Playfield, p: Point, radius: u32)
    requires
        field.holds(p, radius),
    ensures
        field.confined(p, radius) == p,
{
}

} // verus!
