//! Window geometry in integer pixels and its interpolation.

use vstd::prelude::*;

verus! {

/// Quotient `p / q` rounded to the nearest integer, halves away from zero.
pub open spec fn round_div(p: int, q: int) -> int
    recommends
        q > 0,
{
    if p >= 0 {
        (2 * p + q) / (2 * q)
    } else {
        -((2 * (-p) + q) / (2 * q))
    }
}

/// `round_div(p, q)` is an integer nearest to `p / q`: twice its distance
/// from the exact quotient, scaled by `q`, is at most `q`.
pub proof fn lemma_round_div_nearest(p: int, q: int)
    requires
        q > 0,
    ensures
        -q <= 2 * (round_div(p, q) * q - p) <= q,
        p >= 0 ==> round_div(p, q) >= 0,
        p <= 0 ==> round_div(p, q) <= 0,
        round_div(-p, q) == -round_div(p, q),
{
    let m: int = if p >= 0 { p } else { -p };
    let r: int = (2 * m + q) / (2 * q);
    assert(r * (2 * q) <= 2 * m + q < r * (2 * q) + 2 * q && r >= 0) by (nonlinear_arith)
        requires
            r == (2 * m + q) / (2 * q),
            q > 0,
            m >= 0,
    ;
    assert(r * (2 * q) == 2 * (r * q)) by (nonlinear_arith);
    if p >= 0 {
        assert(round_div(p, q) == r);
    } else {
        assert(round_div(p, q) == -r);
        assert((-r) * q == -(r * q)) by (nonlinear_arith);
    }
    if p == 0 {
        assert(r == 0) by (nonlinear_arith)
            requires
                r == (q) / (2 * q),
                q > 0,
        ;
    }
}

/// Rounding keeps the order of the numerators.
pub proof fn lemma_round_div_monotonic(p1: int, p2: int, q: int)
    requires
        q > 0,
        p1 <= p2,
    ensures
        round_div(p1, q) <= round_div(p2, q),
{
    let m1: int = if p1 >= 0 { p1 } else { -p1 };
    let m2: int = if p2 >= 0 { p2 } else { -p2 };
    let r1: int = (2 * m1 + q) / (2 * q);
    let r2: int = (2 * m2 + q) / (2 * q);
    assert(r1 >= 0 && r2 >= 0) by (nonlinear_arith)
        requires
            r1 == (2 * m1 + q) / (2 * q),
            r2 == (2 * m2 + q) / (2 * q),
            q > 0,
            m1 >= 0,
            m2 >= 0,
    ;
    if p1 >= 0 {
        assert(r1 <= r2) by (nonlinear_arith)
            requires
                r1 == (2 * m1 + q) / (2 * q),
                r2 == (2 * m2 + q) / (2 * q),
                q > 0,
                0 <= m1 <= m2,
        ;
    } else if p2 < 0 {
        assert(r2 <= r1) by (nonlinear_arith)
            requires
                r1 == (2 * m1 + q) / (2 * q),
                r2 == (2 * m2 + q) / (2 * q),
                q > 0,
                0 <= m2 <= m1,
        ;
    }
}

/// Rounded quotient of two unsigned numbers.
pub fn round_div_u128(p: u128, q: u128) -> (r: u128)
    requires
        q > 0,
        2 * p + q <= u128::MAX,
        2 * q <= u128::MAX,
    ensures
        r == round_div(p as int, q as int),
{
    (2 * p + q) / (2 * q)
}

/// Rounded quotient of a signed number by a positive one.
pub fn round_div_i64(n: i64, q: u32) -> (r: i64)
    requires
        q > 0,
    ensures
        r == round_div(n as int, q as int),
{
    proof {
        lemma_round_div_magnitude(n as int, q as int);
    }
    if n >= 0 {
        round_div_u128(n as u128, q as u128) as i64
    } else {
        let m: u128 = (-(n as i128)) as u128;
        proof {
            lemma_round_div_magnitude(m as int, q as int);
        }
        (-(round_div_u128(m, q as u128) as i128)) as i64
    }
}

/// A rounded quotient is no larger in magnitude than its numerator.
pub proof fn lemma_round_div_magnitude(p: int, q: int)
    requires
        q > 0,
    ensures
        p >= 0 ==> 0 <= round_div(p, q) <= p,
        p <= 0 ==> p <= round_div(p, q) <= 0,
{
    let m: int = if p >= 0 { p } else { -p };
    let r: int = (2 * m + q) / (2 * q);
    assert(0 <= r <= m) by (nonlinear_arith)
        requires
            r == (2 * m + q) / (2 * q),
            q >= 1,
            m >= 0,
    ;
}

/// A whole multiple of the divisor rounds to its factor.
pub proof fn lemma_round_div_exact(k: int, q: int)
    requires
        q > 0,
    ensures
        round_div(k * q, q) == k,
{
    let m: int = if k >= 0 { k } else { -k };
    assert((2 * (m * q) + q) / (2 * q) == m) by (nonlinear_arith)
        requires
            q > 0,
            m >= 0,
    ;
    if k >= 0 {
        assert(k * q >= 0) by (nonlinear_arith)
            requires
                k >= 0,
                q > 0,
        ;
    } else {
        assert(k * q < 0 && -(k * q) == m * q) by (nonlinear_arith)
            requires
                k < 0,
                q > 0,
                m == -k,
        ;
    }
}

/// Rounded quotient of a signed number of moderate size by a positive one.
pub fn round_div_i128(n: i128, q: u32) -> (r: i128)
    requires
        q > 0,
        -0x1_0000_0000_0000_0000_0000_0000 <= n <= 0x1_0000_0000_0000_0000_0000_0000,
    ensures
        r == round_div(n as int, q as int),
{
    if n >= 0 {
        proof {
            lemma_round_div_magnitude(n as int, q as int);
        }
        round_div_u128(n as u128, q as u128) as i128
    } else {
        let m: u128 = (-n) as u128;
        proof {
            lemma_round_div_magnitude(m as int, q as int);
        }
        -(round_div_u128(m, q as u128) as i128)
    }
}

/// The value at `num / den` of the way from `start` to `end`: the exact
/// value `start + (end - start) * num / den`, rounded to the nearest integer,
/// halves away from zero.
pub open spec fn lerp_scalar(start: int, end: int, num: int, den: int) -> int
    recommends
        den > 0,
        0 <= num <= den,
{
    round_div(start * den + (end - start) * num, den)
}

/// An interpolated value never leaves the interval between its endpoints, and
/// meets them at the two ends of the parameter range.
pub proof fn lemma_lerp_scalar_between(start: int, end: int, num: int, den: int)
    requires
        den > 0,
        0 <= num <= den,
    ensures
        start <= end ==> start <= lerp_scalar(start, end, num, den) <= end,
        end <= start ==> end <= lerp_scalar(start, end, num, den) <= start,
        lerp_scalar(start, end, 0, den) == start,
        lerp_scalar(start, end, den, den) == end,
{
    let n = start * den + (end - start) * num;
    lemma_round_div_exact(start, den);
    lemma_round_div_exact(end, den);
    assert(start * den + (end - start) * 0 == start * den) by (nonlinear_arith);
    assert(start * den + (end - start) * den == end * den) by (nonlinear_arith);
    if start <= end {
        assert(start * den <= n <= end * den) by (nonlinear_arith)
            requires
                n == start * den + (end - start) * num,
                start <= end,
                0 <= num <= den,
        ;
        lemma_round_div_monotonic(start * den, n, den);
        lemma_round_div_monotonic(n, end * den, den);
    }
    if end <= start {
        assert(end * den <= n <= start * den) by (nonlinear_arith)
            requires
                n == start * den + (end - start) * num,
                end <= start,
                0 <= num <= den,
        ;
        lemma_round_div_monotonic(end * den, n, den);
        lemma_round_div_monotonic(n, start * den, den);
    }
}

/// Interpolates one coordinate.
pub fn lerp_i32(start: i32, end: i32, num: u32, den: u32) -> (r: i32)
    requires
        den > 0,
        num <= den,
    ensures
        r == lerp_scalar(start as int, end as int, num as int, den as int),
{
    let distance: i128 = end as i128 - start as i128;
    assert(-0x8000_0000 * 0x1_0000_0000 <= start as int * den as int <= 0x8000_0000
        * 0x1_0000_0000) by (nonlinear_arith)
        requires
            -0x8000_0000 <= start as int <= 0x8000_0000,
            0 <= den as int <= 0x1_0000_0000,
    ;
    assert(-0x1_0000_0000 * 0x1_0000_0000 <= distance as int * num as int <= 0x1_0000_0000
        * 0x1_0000_0000) by (nonlinear_arith)
        requires
            -0x1_0000_0000 <= distance as int <= 0x1_0000_0000,
            0 <= num as int <= 0x1_0000_0000,
    ;
    let scaled: i128 = start as i128 * den as i128 + distance * num as i128;
    proof {
        lemma_lerp_scalar_between(start as int, end as int, num as int, den as int);
    }
    round_div_i128(scaled, den) as i32
}

/// Position and size of the overlay window, in pixels.
#[derive(Clone, Copy, Debug, PartialEq, Eq, Structural)]
pub struct Geometry {
    pub x: i32,
    pub y: i32,
    pub width: i32,
    pub height: i32,
}

/// The larger of a length and one pixel.
pub open spec fn at_least_one(v: int) -> int {
    if v < 1 {
        1
    } else {
        v
    }
}

impl Geometry {
    /// The geometry `num / den` of the way from `self` to `other`; width and
    /// height are kept at one pixel or more.
    pub open spec fn spec_lerp(self, other: Geometry, num: int, den: int) -> Geometry
        recommends
            den > 0,
            0 <= num <= den,
    {
        Geometry {
            x: lerp_scalar(self.x as int, other.x as int, num, den) as i32,
            y: lerp_scalar(self.y as int, other.y as int, num, den) as i32,
            width: at_least_one(
                lerp_scalar(self.width as int, other.width as int, num, den),
            ) as i32,
            height: at_least_one(
                lerp_scalar(self.height as int, other.height as int, num, den),
            ) as i32,
        }
    }

    pub fn new(x: i32, y: i32, width: i32, height: i32) -> (g: Geometry)
        ensures
            g == (Geometry { x, y, width, height }),
    {
        Geometry { x, y, width, height }
    }

    /// Linear interpolation towards `other` at the parameter `num / den`.
    pub fn lerp(self, other: Geometry, num: u32, den: u32) -> (g: Geometry)
        requires
            den > 0,
            num <= den,
        ensures
            g == self.spec_lerp(other, num as int, den as int),
            g.width >= 1,
            g.height >= 1,
    {
        let width: i32 = lerp_i32(self.width, other.width, num, den);
        let height: i32 = lerp_i32(self.height, other.height, num, den);
        Geometry {
            x: lerp_i32(self.x, other.x, num, den),
            y: lerp_i32(self.y, other.y, num, den),
            width: if width < 1 { 1 } else { width },
            height: if height < 1 { 1 } else { height },
        }
    }
}

impl Default for Geometry {
    fn default() -> (g: Geometry)
        ensures
            g == (Geometry { x: 0, y: 0, width: 0, height: 0 }),
    {
        Geometry { x: 0, y: 0, width: 0, height: 0 }
    }
}

/// Interpolation at parameter 0 gives the first geometry back, provided that
/// geometry is at least one pixel wide and high.
pub proof fn lemma_lerp_at_zero(from: Geometry, to: Geometry, den: int)
    requires
        den > 0,
        from.width >= 1,
        from.height >= 1,
    ensures
        from.spec_lerp(to, 0, den) == from,
{
    lemma_lerp_scalar_between(from.x as int, to.x as int, 0, den);
    lemma_lerp_scalar_between(from.y as int, to.y as int, 0, den);
    lemma_lerp_scalar_between(from.width as int, to.width as int, 0, den);
    lemma_lerp_scalar_between(from.height as int, to.height as int, 0, den);
}

/// Interpolation at parameter 1 gives the second geometry, provided that
/// geometry is at least one pixel wide and high.
pub proof fn lemma_lerp_at_one(from: Geometry, to: Geometry, den: int)
    requires
        den > 0,
        to.width >= 1,
        to.height >= 1,
    ensures
        from.spec_lerp(to, den, den) == to,
{
    lemma_lerp_scalar_between(from.x as int, to.x as int, den, den);
    lemma_lerp_scalar_between(from.y as int, to.y as int, den, den);
    lemma_lerp_scalar_between(from.width as int, to.width as int, den, den);
    lemma_lerp_scalar_between(from.height as int, to.height as int, den, den);
}

/// At every parameter in `[0, 1]` the interpolated geometry is at least one
/// pixel wide and high, and each of its coordinates lies between the
/// corresponding coordinates of the two ends (or is the one-pixel minimum).
pub proof fn lemma_lerp_bounds(from: Geometry, to: Geometry, num: int, den: int)
    requires
        den > 0,
        0 <= num <= den,
    ensures
        from.spec_lerp(to, num, den).width >= 1,
        from.spec_lerp(to, num, den).height >= 1,
        from.spec_lerp(to, num, den).x == lerp_scalar(from.x as int, to.x as int, num, den),
        from.spec_lerp(to, num, den).y == lerp_scalar(from.y as int, to.y as int, num, den),
        from.spec_lerp(to, num, den).width == at_least_one(
            lerp_scalar(from.width as int, to.width as int, num, den),
        ),
        from.spec_lerp(to, num, den).height == at_least_one(
            lerp_scalar(from.height as int, to.height as int, num, den),
        ),
{
    lemma_lerp_scalar_between(from.x as int, to.x as int, num, den);
    lemma_lerp_scalar_between(from.y as int, to.y as int, num, den);
    lemma_lerp_scalar_between(from.width as int, to.width as int, num, den);
    lemma_lerp_scalar_between(from.height as int, to.height as int, num, den);
}

} // verus!
