//! Unit vectors in fixed point.
//!
//! A direction component is a whole number of `1 / DIR_ONE` parts. Scaling a
//! vector to unit length rounds each component toward zero, so the length of
//! a direction is `DIR_ONE` to within two parts.

use vstd::math::abs;
use vstd::prelude::*;
use crate::root::{floor_root, lemma_square_strictly_monotonic};
use crate::units::DIR_ONE;

verus! {

/// `m` is the size of the component `a` of the vector `(a, b)` once the
/// vector is scaled to the length `DIR_ONE`, rounded down:
/// `m / DIR_ONE <= |a| / |(a, b)| < (m + 1) / DIR_ONE`, stated over squares.
pub open spec fn is_unit_share(a: int, b: int, m: int) -> bool {
    &&& 0 <= m
    &&& m * m * (a * a + b * b) <= a * a * (DIR_ONE * DIR_ONE)
    &&& a * a * (DIR_ONE * DIR_ONE) < (m + 1) * (m + 1) * (a * a + b * b)
}

/// The size of the component `a` of `(a, b)` scaled to the length `DIR_ONE`.
pub open spec fn unit_share(a: int, b: int) -> int {
    choose|m: int| is_unit_share(a, b, m)
}

/// The component `a` of `(a, b)` scaled to the length `DIR_ONE`, rounded
/// toward zero.
pub open spec fn signed_share(a: int, b: int) -> int {
    if a < 0 {
        -unit_share(a, b)
    } else {
        unit_share(a, b)
    }
}

/// `v` with its sign changed where `flip` says so.
pub open spec fn flipped(v: int, flip: bool) -> int {
    if flip {
        -v
    } else {
        v
    }
}

/// The squared length of the vector `(x, y)`.
pub open spec fn norm_sq(x: int, y: int) -> int {
    x * x + y * y
}

/// `(x, y)` has the length `DIR_ONE`, to within two parts below it.
pub open spec fn unit_norm(x: int, y: int) -> bool {
    &&& -DIR_ONE <= x <= DIR_ONE
    &&& -DIR_ONE <= y <= DIR_ONE
    &&& (DIR_ONE - 2) * (DIR_ONE - 2) <= norm_sq(x, y) <= DIR_ONE * DIR_ONE
}

/// A vector has at most one share for each of its components.
pub proof fn lemma_unit_share_unique(a: int, b: int, m: int, n: int)
    requires
        is_unit_share(a, b, m),
        is_unit_share(a, b, n),
    ensures
        m == n,
{
    let len = a * a + b * b;
    assert(len >= 0) by (nonlinear_arith)
        requires
            len == a * a + b * b,
    ;
    if m < n {
        assert((m + 1) * (m + 1) * len <= n * n * len) by (nonlinear_arith)
            requires
                0 <= m + 1 <= n,
                0 <= len,
        ;
    } else if n < m {
        assert((n + 1) * (n + 1) * len <= m * m * len) by (nonlinear_arith)
            requires
                0 <= n + 1 <= m,
                0 <= len,
        ;
    }
}

/// Whoever holds a share of `(a, b)` holds `unit_share(a, b)`.
pub proof fn lemma_unit_share_found(a: int, b: int, m: int)
    requires
        is_unit_share(a, b, m),
    ensures
        unit_share(a, b) == m,
{
    lemma_unit_share_unique(a, b, m, unit_share(a, b));
}

/// The shares of a vector other than zero make a unit vector.
pub proof fn lemma_shares_make_unit(a: int, b: int, m: int, n: int)
    requires
        a != 0 || b != 0,
        is_unit_share(a, b, m),
        is_unit_share(b, a, n),
    ensures
        unit_norm(m, n),
        unit_norm(-m, n),
        unit_norm(m, -n),
        unit_norm(-m, -n),
{
    let one = DIR_ONE as int;
    let len = a * a + b * b;
    let mm = m * m + n * n;
    let up = (m + 1) * (m + 1) + (n + 1) * (n + 1);
    assert(len > 0) by (nonlinear_arith)
        requires
            a != 0 || b != 0,
            len == a * a + b * b,
    ;
    assert(b * b + a * a == len);
    assert(mm <= one * one) by (nonlinear_arith)
        requires
            len > 0,
            len == a * a + b * b,
            mm == m * m + n * n,
            m * m * len <= a * a * (one * one),
            n * n * len <= b * b * (one * one),
    ;
    assert(up > one * one) by (nonlinear_arith)
        requires
            len > 0,
            len == a * a + b * b,
            up == (m + 1) * (m + 1) + (n + 1) * (n + 1),
            a * a * (one * one) < (m + 1) * (m + 1) * len,
            b * b * (one * one) < (n + 1) * (n + 1) * len,
    ;
    assert(m <= one && n <= one) by (nonlinear_arith)
        requires
            0 <= m,
            0 <= n,
            one > 0,
            m * m + n * n <= one * one,
    ;
    assert(m + n <= 2 * one - 3) by (nonlinear_arith)
        requires
            0 <= m,
            0 <= n,
            one >= 4,
            m * m + n * n <= one * one,
    ;
    assert(up == mm + 2 * (m + n) + 2) by (nonlinear_arith)
        requires
            mm == m * m + n * n,
            up == (m + 1) * (m + 1) + (n + 1) * (n + 1),
    ;
    assert((one - 2) * (one - 2) == one * one - 4 * one + 4) by (nonlinear_arith);
    assert((-m) * (-m) == m * m) by (nonlinear_arith);
    assert((-n) * (-n) == n * n) by (nonlinear_arith);
}

/// Counting up from `k`, whose square is not too large, reaches a share.
proof fn lemma_share_search(a: int, b: int, k: int)
    requires
        a != 0 || b != 0,
        0 <= k,
        k * k * (a * a + b * b) <= a * a * (DIR_ONE * DIR_ONE),
    ensures
        exists|m: int| is_unit_share(a, b, m),
    decreases a * a * (DIR_ONE * DIR_ONE) - k,
{
    let len = a * a + b * b;
    let top = a * a * (DIR_ONE * DIR_ONE);
    if top < (k + 1) * (k + 1) * len {
        assert(is_unit_share(a, b, k));
    } else {
        assert(k + 1 <= top) by (nonlinear_arith)
            requires
                0 <= k,
                (k + 1) * (k + 1) * len <= top,
                len == a * a + b * b,
                a != 0 || b != 0,
        ;
        lemma_share_search(a, b, k + 1);
    }
}

/// Each component of a vector other than zero has a share, which is at most
/// `DIR_ONE`.
pub proof fn lemma_unit_share_exists(a: int, b: int)
    requires
        a != 0 || b != 0,
    ensures
        is_unit_share(a, b, unit_share(a, b)),
        0 <= unit_share(a, b) <= DIR_ONE,
{
    let one = DIR_ONE as int;
    assert(0 * 0 * (a * a + b * b) <= a * a * (one * one)) by (nonlinear_arith);
    lemma_share_search(a, b, 0);
    let m = unit_share(a, b);
    assert(m <= one) by (nonlinear_arith)
        requires
            0 <= m,
            one > 0,
            a != 0 || b != 0,
            m * m * (a * a + b * b) <= a * a * (one * one),
    ;
}

/// A unit vector in fixed point: each component is a whole number of
/// `1 / DIR_ONE` parts, and the vector's length is `DIR_ONE` to within two
/// parts. Every value of this type is one.
#[derive(Clone, Copy, Debug, PartialEq, Eq, Structural)]
pub struct Direction {
    x: i32,
    y: i32,
}

impl Direction {
    /// The horizontal component, as contracts see it.
    pub closed spec fn spec_x(&self) -> i32 {
        self.x
    }

    /// The vertical component, as contracts see it.
    pub closed spec fn spec_y(&self) -> i32 {
        self.y
    }

    /// What every direction satisfies.
    #[verifier::type_invariant]
    pub open spec fn is_unit(&self) -> bool {
        unit_norm(self.x() as int, self.y() as int)
    }

    /// The direction with the given components.
    pub closed spec fn from_parts(x: int, y: int) -> Direction {
        Direction { x: x as i32, y: y as i32 }
    }

    /// The direction of the vector `(x, y)`: the vector scaled to unit
    /// length, each component rounded toward zero.
    pub open spec fn normalized(x: int, y: int) -> Direction {
        Direction::from_parts(signed_share(x, y), signed_share(y, x))
    }

    /// This direction with the sign of each chosen component changed.
    pub open spec fn reflected(&self, flip_x: bool, flip_y: bool) -> Direction {
        Direction::from_parts(flipped(self.x() as int, flip_x), flipped(self.y() as int, flip_y))
    }

    /// The direction along the horizontal axis, toward greater `x`.
    pub open spec fn spec_right() -> Direction {
        Direction::from_parts(DIR_ONE as int, 0)
    }

    /// `from_parts` keeps the components it is given.
    pub proof fn lemma_parts(x: int, y: int)
        requires
            i32::MIN <= x <= i32::MAX,
            i32::MIN <= y <= i32::MAX,
        ensures
            Direction::from_parts(x, y).x() == x,
            Direction::from_parts(x, y).y() == y,
    {
    }

    /// A direction is what its components say.
    pub proof fn lemma_from_own_parts(d: Direction)
        ensures
            d == Direction::from_parts(d.x() as int, d.y() as int),
    {
    }

    /// The direction of a vector other than zero is a unit vector, made of
    /// the shares of the vector's components.
    pub proof fn lemma_normalized_is_unit(x: int, y: int)
        requires
            x != 0 || y != 0,
        ensures
            Direction::normalized(x, y).is_unit(),
            Direction::normalized(x, y).x() == signed_share(x, y),
            Direction::normalized(x, y).y() == signed_share(y, x),
    {
        lemma_unit_share_exists(x, y);
        lemma_unit_share_exists(y, x);
        lemma_shares_make_unit(x, y, unit_share(x, y), unit_share(y, x));
    }

    /// Changing the sign of components changes neither the length of a
    /// vector nor whether it is a unit vector.
    pub proof fn lemma_reflection_keeps_length(d: Direction, flip_x: bool, flip_y: bool)
        requires
            d.is_unit(),
        ensures
            d.reflected(flip_x, flip_y).is_unit(),
            norm_sq(
                d.reflected(flip_x, flip_y).x() as int,
                d.reflected(flip_x, flip_y).y() as int,
            ) == norm_sq(d.x() as int, d.y() as int),
            d.reflected(flip_x, flip_y).x() == flipped(d.x() as int, flip_x),
            d.reflected(flip_x, flip_y).y() == flipped(d.y() as int, flip_y),
    {
        let x = d.x() as int;
        let y = d.y() as int;
        assert((-x) * (-x) == x * x) by (nonlinear_arith);
        assert((-y) * (-y) == y * y) by (nonlinear_arith);
    }

    /// The horizontal component.
    #[verifier::when_used_as_spec(spec_x)]
    pub fn x(&self) -> (r: i32)
        ensures
            r == self.x(),
    {
        self.x
    }

    /// The vertical component.
    #[verifier::when_used_as_spec(spec_y)]
    pub fn y(&self) -> (r: i32)
        ensures
            r == self.y(),
    {
        self.y
    }

    /// The direction along the horizontal axis, toward greater `x`.
    #[verifier::when_used_as_spec(spec_right)]
    pub fn right() -> (r: Direction)
        ensures
            r == Direction::right(),
            r.x() == DIR_ONE,
            r.y() == 0,
    {
        assert((DIR_ONE - 2) * (DIR_ONE - 2) <= DIR_ONE * DIR_ONE) by (nonlinear_arith);
        Direction { x: DIR_ONE, y: 0 }
    }

    /// The direction of the vector `(x, y)`, or `None` for the zero vector,
    /// which has none.
    pub fn normalize(x: i32, y: i32) -> (r: Option<Direction>)
        ensures
            r is None <==> (x == 0 && y == 0),
            r matches Some(d) ==> d == Direction::normalized(x as int, y as int),
            r matches Some(d) ==> d.x() == signed_share(x as int, y as int),
            r matches Some(d) ==> d.y() == signed_share(y as int, x as int),
    {
        if x == 0 && y == 0 {
            return None;
        }
        let dx = share(x, y);
        let dy = share(y, x);
        proof {
            lemma_unit_share_found(x as int, y as int, unit_share(x as int, y as int));
            lemma_shares_make_unit(
                x as int,
                y as int,
                unit_share(x as int, y as int),
                unit_share(y as int, x as int),
            );
        }
        Some(Direction { x: dx, y: dy })
    }

    /// This direction with the sign of each chosen component changed.
    pub fn reflect(self, flip_x: bool, flip_y: bool) -> (r: Direction)
        ensures
            r == self.reflected(flip_x, flip_y),
            r.x() == flipped(self.x() as int, flip_x),
            r.y() == flipped(self.y() as int, flip_y),
    {
        proof {
            use_type_invariant(&self);
            Direction::lemma_reflection_keeps_length(self, flip_x, flip_y);
        }
        Direction {
            x: if flip_x {
                -self.x
            } else {
                self.x
            },
            y: if flip_y {
                -self.y
            } else {
                self.y
            },
        }
    }
}

/// The size of a number.
fn magnitude(a: i32) -> (r: u32)
    ensures
        r == abs(a as int),
{
    if a < 0 {
        (-(a as i64)) as u32
    } else {
        a as u32
    }
}

/// The component `a` of `(a, b)` scaled to the length `DIR_ONE`, rounded
/// toward zero.
fn share(a: i32, b: i32) -> (r: i32)
    requires
        a != 0 || b != 0,
    ensures
        r == signed_share(a as int, b as int),
        is_unit_share(a as int, b as int, unit_share(a as int, b as int)),
        -DIR_ONE <= r <= DIR_ONE,
{
    let ua: u128 = magnitude(a) as u128;
    let ub: u128 = magnitude(b) as u128;
    let one: u128 = DIR_ONE as u128;
    assert(ua * ua <= 0x4000_0000_0000_0000 && ua * ua == a * a) by (nonlinear_arith)
        requires
            ua == a || ua == -a,
            ua <= 0x8000_0000,
    ;
    assert(ub * ub <= 0x4000_0000_0000_0000 && ub * ub == b * b) by (nonlinear_arith)
        requires
            ub == b || ub == -b,
            ub <= 0x8000_0000,
    ;
    let a2: u128 = ua * ua;
    let b2: u128 = ub * ub;
    assert(one * one == 0x1000_0000_0000_0000) by (nonlinear_arith)
        requires
            one == 0x4000_0000,
    ;
    let scale: u128 = one * one;
    let len: u128 = a2 + b2;
    assert(len > 0) by (nonlinear_arith)
        requires
            a != 0 || b != 0,
            len == a * a + b * b,
    ;
    assert(a2 * scale <= 0x4000_0000_0000_0000 * 0x1000_0000_0000_0000) by (nonlinear_arith)
        requires
            a2 <= 0x4000_0000_0000_0000,
            scale == 0x1000_0000_0000_0000,
    ;
    let top: u128 = a2 * scale;
    let q: u128 = top / len;
    assert(q * len <= top < (q + 1) * len && q <= scale) by (nonlinear_arith)
        requires
            len > 0,
            q == top / len,
            top == a2 * scale,
            len == a2 + b2,
            0 <= b2,
            0 <= a2,
            0 <= scale,
    ;
    let m: u64 = floor_root(q as u64);
    proof {
        let mi = m as int;
        let li = len as int;
        assert(mi * mi * li <= q * li) by (nonlinear_arith)
            requires
                mi * mi <= q,
                li > 0,
        ;
        assert((q + 1) * li <= (mi + 1) * (mi + 1) * li) by (nonlinear_arith)
            requires
                q + 1 <= (mi + 1) * (mi + 1),
                li > 0,
        ;
        assert(mi <= one) by {
            if mi > one {
                lemma_square_strictly_monotonic(one as int, mi);
            }
        }
        assert(is_unit_share(a as int, b as int, mi));
        lemma_unit_share_found(a as int, b as int, mi);
    }
    if a < 0 {
        -(m as i32)
    } else {
        m as i32
    }
}

} // verus!
