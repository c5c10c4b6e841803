//! Coordinate system used by the physics engine.
//!
//! A coordinate is a pair of `i32` values. The whole range of `i32` is the
//! extent of the world on each axis, so no operation may leave it: the
//! operators saturate at the border, and [`spill_add`] reports how much of a
//! displacement the border has swallowed.

use vstd::prelude::*;

verus! {

/// The underlying coordinate representation.
pub type CoordT = i32;

/// A directed two-dimensional magnitude.
///
/// The operators `+`, `-` and `*` work on each axis by itself and saturate at
/// the border of the range; `/` and `%` round toward zero.
#[derive(Clone, Copy, Debug, PartialEq, Eq, Structural)]
pub struct Vector2 {
    pub x: CoordT,
    pub y: CoordT,
}

/// Two-dimensional point. A point and a displacement share one
/// representation and one arithmetic.
pub type Point2 = Vector2;

impl View for Vector2 {
    type V = (int, int);

    open spec fn view(&self) -> (int, int) {
        (self.x as int, self.y as int)
    }
}

/// Whether the integer `v` is a coordinate: whether it lies inside the world.
pub open spec fn in_range(v: int) -> bool {
    CoordT::MIN <= v <= CoordT::MAX
}

/// The integer `v` pulled back into the range of [`CoordT`].
pub open spec fn clamp(v: int) -> int {
    if v > CoordT::MAX {
        CoordT::MAX as int
    } else if v < CoordT::MIN {
        CoordT::MIN as int
    } else {
        v
    }
}

/// The distance of `v` from zero.
pub open spec fn magnitude(v: int) -> int {
    if v < 0 {
        -v
    } else {
        v
    }
}

/// The quotient of `a` by `b`, rounded toward zero: the quotient of the two
/// magnitudes, negative where the signs differ.
pub open spec fn trunc_div(a: int, b: int) -> int
    recommends
        b != 0,
{
    if a >= 0 && b > 0 {
        a / b
    } else if a >= 0 {
        -(a / (-b))
    } else if b > 0 {
        -((-a) / b)
    } else {
        (-a) / (-b)
    }
}

/// What is left of `a` after [`trunc_div`] by `b`: the remainder of the two
/// magnitudes, with the sign of `a`.
pub open spec fn trunc_rem(a: int, b: int) -> int
    recommends
        b != 0,
{
    if a >= 0 && b > 0 {
        a % b
    } else if a >= 0 {
        a % (-b)
    } else if b > 0 {
        -((-a) % b)
    } else {
        -((-a) % (-b))
    }
}

/// A clamped result lies in the range of [`CoordT`], and clamping leaves a
/// value of that range as it is.
pub proof fn lemma_clamp_in_range(v: int)
    ensures
        in_range(clamp(v)),
        in_range(v) ==> clamp(v) == v,
        v > CoordT::MAX ==> clamp(v) == CoordT::MAX,
        v < CoordT::MIN ==> clamp(v) == CoordT::MIN,
{
}

/// Truncating division and remainder split the dividend exactly, the
/// remainder is smaller than the divisor, and the quotient is no larger than
/// the dividend.
pub proof fn lemma_trunc_div_rem(a: int, b: int)
    requires
        b != 0,
    ensures
        a == b * trunc_div(a, b) + trunc_rem(a, b),
        magnitude(trunc_rem(a, b)) < magnitude(b),
        magnitude(trunc_div(a, b)) <= magnitude(a),
{
    let m = magnitude(a);
    let d = magnitude(b);
    vstd::arithmetic::div_mod::lemma_fundamental_div_mod(m, d);
    vstd::arithmetic::div_mod::lemma_mod_bound(m, d);
    vstd::arithmetic::div_mod::lemma_div_pos_is_pos(m, d);
    vstd::arithmetic::div_mod::lemma_div_is_ordered_by_denominator(m, 1, d);
    vstd::arithmetic::div_mod::lemma_div_basics(m);
    let q = m / d;
    assert(b * trunc_div(a, b) == if a >= 0 { d * q } else { -(d * q) }) by (nonlinear_arith)
        requires
            d == magnitude(b),
            b != 0,
            trunc_div(a, b) == (if (a >= 0) == (b > 0) { q } else { -q }),
    ;
}

/// The value of `wide` as a coordinate, held at the border of the range.
fn narrow(wide: i64) -> (r: CoordT)
    ensures
        r == clamp(wide as int),
{
    if wide > CoordT::MAX as i64 {
        CoordT::MAX
    } else if wide < CoordT::MIN as i64 {
        CoordT::MIN
    } else {
        wide as CoordT
    }
}

/// Sum of two coordinates, held at the border of the range.
pub fn saturating_add(a: CoordT, b: CoordT) -> (r: CoordT)
    ensures
        r == clamp(a + b),
{
    let wide: i64 = a as i64 + b as i64;
    narrow(wide)
}

/// Difference of two coordinates, held at the border of the range.
pub fn saturating_sub(a: CoordT, b: CoordT) -> (r: CoordT)
    ensures
        r == clamp(a - b),
{
    let wide: i64 = a as i64 - b as i64;
    narrow(wide)
}

/// A coordinate lowered by an unsigned amount, held at the lower border of
/// the range.
pub fn saturating_sub_unsigned(a: CoordT, b: u32) -> (r: CoordT)
    ensures
        r == clamp(a - b),
{
    let wide: i64 = a as i64 - b as i64;
    narrow(wide)
}

/// Product of two coordinates, held at the border of the range.
pub fn saturating_mul(a: CoordT, b: CoordT) -> (r: CoordT)
    ensures
        r == clamp(a * b),
{
    assert(-0x4000_0000_0000_0000 <= a * b <= 0x4000_0000_0000_0000) by (nonlinear_arith)
        requires
            -0x8000_0000 <= a <= 0x7fff_ffff,
            -0x8000_0000 <= b <= 0x7fff_ffff,
    ;
    let wide: i64 = a as i64 * b as i64;
    narrow(wide)
}

/// Quotient of two coordinates, rounded toward zero and held at the border
/// of the range: the one quotient that leaves it is `MIN / -1`.
pub fn saturating_div(a: CoordT, b: CoordT) -> (r: CoordT)
    requires
        b != 0,
    ensures
        r == clamp(trunc_div(a as int, b as int)),
{
    let dividend: i64 = a as i64;
    let divisor: i64 = if b < 0 {
        -(b as i64)
    } else {
        b as i64
    };
    proof {
        lemma_trunc_div_rem(a as int, b as int);
    }
    let quotient: i64 = dividend / divisor;
    if b < 0 {
        narrow(-quotient)
    } else {
        narrow(quotient)
    }
}

/// Remainder of the division of two coordinates that rounds toward zero. No
/// remainder leaves the range, `MIN % -1` is zero.
pub fn truncating_rem(a: CoordT, b: CoordT) -> (r: CoordT)
    requires
        b != 0,
    ensures
        r == trunc_rem(a as int, b as int),
{
    let dividend: i64 = a as i64;
    let divisor: i64 = if b < 0 {
        -(b as i64)
    } else {
        b as i64
    };
    proof {
        lemma_trunc_div_rem(a as int, b as int);
    }
    let rest: i64 = dividend % divisor;
    rest as CoordT
}

/// Perform a typical sum, but unspill over and underflow.
///
/// The coordinate moves by `b` as far as the range lets it and stops at the
/// border it would have crossed. What is returned is the rest of `b`, the
/// part that was not applied: zero unless the border was crossed.
pub fn unspill_add(a: &mut CoordT, b: CoordT) -> (spill: CoordT)
    ensures
        *final(a) == clamp(*old(a) + b),
        *final(a) - *old(a) == b - spill,
        spill != 0 <==> !in_range(*old(a) + b),
{
    let start: CoordT = *a;
    let wrapped: CoordT = start.wrapping_add(b);
    if start >= 0 && b >= 0 && wrapped < 0 {
        // overflow
        *a = CoordT::MAX;
        wrapped.wrapping_sub(CoordT::MAX)
    } else if start < 0 && b < 0 && wrapped >= 0 {
        // underflow
        *a = CoordT::MIN;
        wrapped.wrapping_sub(CoordT::MIN)
    } else {
        *a = wrapped;
        0
    }
}

/// Move the provided point by the provided vector up to representable limit.
///
/// Returns the distance not covered due to hitting the limit.
pub fn spill_add(point: &mut Point2, vector: Vector2) -> (spill: Vector2)
    ensures
        final(point)@ == (clamp(old(point).x + vector.x), clamp(old(point).y + vector.y)),
        final(point).x - old(point).x == vector.x - spill.x,
        final(point).y - old(point).y == vector.y - spill.y,
        spill.x != 0 <==> !in_range(old(point).x + vector.x),
        spill.y != 0 <==> !in_range(old(point).y + vector.y),
{
    let x = unspill_add(&mut point.x, vector.x);
    let y = unspill_add(&mut point.y, vector.y);
    Vector2::new(x, y)
}

impl Vector2 {
    /// Construct a vector from its two components.
    #[inline(always)]
    pub fn new(x: CoordT, y: CoordT) -> (r: Self)
        ensures
            r.x == x,
            r.y == y,
    {
        Vector2 { x, y }
    }

    /// The quotient on each axis, or `None` where a component of `rhs` is zero.
    pub fn checked_div(self, rhs: Vector2) -> (r: Option<Vector2>)
        ensures
            r is None <==> (rhs.x == 0 || rhs.y == 0),
            r matches Some(q) ==> q@ == (
                clamp(trunc_div(self.x as int, rhs.x as int)),
                clamp(trunc_div(self.y as int, rhs.y as int)),
            ),
    {
        if rhs.x == 0 || rhs.y == 0 {
            None
        } else {
            Some(self / rhs)
        }
    }

    /// The remainder on each axis, or `None` where a component of `rhs` is zero.
    pub fn checked_rem(self, rhs: Vector2) -> (r: Option<Vector2>)
        ensures
            r is None <==> (rhs.x == 0 || rhs.y == 0),
            r matches Some(q) ==> q@ == (
                trunc_rem(self.x as int, rhs.x as int),
                trunc_rem(self.y as int, rhs.y as int),
            ),
    {
        if rhs.x == 0 || rhs.y == 0 {
            None
        } else {
            Some(self % rhs)
        }
    }
}

impl Default for Vector2 {
    fn default() -> (r: Self)
        ensures
            r.x == 0,
            r.y == 0,
    {
        Vector2 { x: 0, y: 0 }
    }
}

impl From<[CoordT; 2]> for Vector2 {
    fn from(v: [CoordT; 2]) -> (r: Self)
        ensures
            r.x == v[0],
            r.y == v[1],
    {
        Vector2 { x: v[0], y: v[1] }
    }
}

impl vstd::std_specs::convert::FromSpecImpl<[CoordT; 2]> for Vector2 {
    open spec fn obeys_from_spec() -> bool {
        true
    }

    open spec fn from_spec(v: [CoordT; 2]) -> Self {
        Vector2 { x: v[0], y: v[1] }
    }
}

impl From<(CoordT, CoordT)> for Vector2 {
    fn from(v: (CoordT, CoordT)) -> (r: Self)
        ensures
            r.x == v.0,
            r.y == v.1,
    {
        Vector2 { x: v.0, y: v.1 }
    }
}

impl vstd::std_specs::convert::FromSpecImpl<(CoordT, CoordT)> for Vector2 {
    open spec fn obeys_from_spec() -> bool {
        true
    }

    open spec fn from_spec(v: (CoordT, CoordT)) -> Self {
        Vector2 { x: v.0, y: v.1 }
    }
}

impl core::ops::Add for Vector2 {
    type Output = Vector2;

    fn add(self, rhs: Vector2) -> (r: Vector2)
        ensures
            r@ == (clamp(self.x + rhs.x), clamp(self.y + rhs.y)),
    {
        Vector2 { x: saturating_add(self.x, rhs.x), y: saturating_add(self.y, rhs.y) }
    }
}

impl vstd::std_specs::ops::AddSpecImpl for Vector2 {
    open spec fn obeys_add_spec() -> bool {
        true
    }

    open spec fn add_req(self, rhs: Vector2) -> bool {
        true
    }

    open spec fn add_spec(self, rhs: Vector2) -> Vector2 {
        Vector2 { x: clamp(self.x + rhs.x) as CoordT, y: clamp(self.y + rhs.y) as CoordT }
    }
}

impl core::ops::Sub for Vector2 {
    type Output = Vector2;

    fn sub(self, rhs: Vector2) -> (r: Vector2)
        ensures
            r@ == (clamp(self.x - rhs.x), clamp(self.y - rhs.y)),
    {
        Vector2 { x: saturating_sub(self.x, rhs.x), y: saturating_sub(self.y, rhs.y) }
    }
}

impl vstd::std_specs::ops::SubSpecImpl for Vector2 {
    open spec fn obeys_sub_spec() -> bool {
        true
    }

    open spec fn sub_req(self, rhs: Vector2) -> bool {
        true
    }

    open spec fn sub_spec(self, rhs: Vector2) -> Vector2 {
        Vector2 { x: clamp(self.x - rhs.x) as CoordT, y: clamp(self.y - rhs.y) as CoordT }
    }
}

impl core::ops::Mul for Vector2 {
    type Output = Vector2;

    fn mul(self, rhs: Vector2) -> (r: Vector2)
        ensures
            r@ == (clamp(self.x * rhs.x), clamp(self.y * rhs.y)),
    {
        Vector2 { x: saturating_mul(self.x, rhs.x), y: saturating_mul(self.y, rhs.y) }
    }
}

impl vstd::std_specs::ops::MulSpecImpl for Vector2 {
    open spec fn obeys_mul_spec() -> bool {
        true
    }

    open spec fn mul_req(self, rhs: Vector2) -> bool {
        true
    }

    open spec fn mul_spec(self, rhs: Vector2) -> Vector2 {
        Vector2 { x: clamp(self.x * rhs.x) as CoordT, y: clamp(self.y * rhs.y) as CoordT }
    }
}

impl core::ops::Div for Vector2 {
    type Output = Vector2;

    fn div(self, rhs: Vector2) -> (r: Vector2)
        ensures
            r@ == (
                clamp(trunc_div(self.x as int, rhs.x as int)),
                clamp(trunc_div(self.y as int, rhs.y as int)),
            ),
    {
        Vector2 { x: saturating_div(self.x, rhs.x), y: saturating_div(self.y, rhs.y) }
    }
}

impl vstd::std_specs::ops::DivSpecImpl for Vector2 {
    open spec fn obeys_div_spec() -> bool {
        true
    }

    open spec fn div_req(self, rhs: Vector2) -> bool {
        rhs.x != 0 && rhs.y != 0
    }

    open spec fn div_spec(self, rhs: Vector2) -> Vector2 {
        Vector2 {
            x: clamp(trunc_div(self.x as int, rhs.x as int)) as CoordT,
            y: clamp(trunc_div(self.y as int, rhs.y as int)) as CoordT,
        }
    }
}

impl core::ops::Rem for Vector2 {
    type Output = Vector2;

    fn rem(self, rhs: Vector2) -> (r: Vector2)
        ensures
            r@ == (trunc_rem(self.x as int, rhs.x as int), trunc_rem(self.y as int, rhs.y as int)),
    {
        Vector2 { x: truncating_rem(self.x, rhs.x), y: truncating_rem(self.y, rhs.y) }
    }
}

impl vstd::std_specs::ops::RemSpecImpl for Vector2 {
    open spec fn obeys_rem_spec() -> bool {
        true
    }

    open spec fn rem_req(self, rhs: Vector2) -> bool {
        rhs.x != 0 && rhs.y != 0
    }

    open spec fn rem_spec(self, rhs: Vector2) -> Vector2 {
        Vector2 {
            x: trunc_rem(self.x as int, rhs.x as int) as CoordT,
            y: trunc_rem(self.y as int, rhs.y as int) as CoordT,
        }
    }
}

impl core::ops::BitAnd for Vector2 {
    type Output = Vector2;

    fn bitand(self, rhs: Vector2) -> (r: Vector2)
        ensures
            r.x == self.x & rhs.x,
            r.y == self.y & rhs.y,
    {
        Vector2 { x: self.x & rhs.x, y: self.y & rhs.y }
    }
}

impl vstd::std_specs::ops::BitAndSpecImpl for Vector2 {
    open spec fn obeys_bitand_spec() -> bool {
        true
    }

    open spec fn bitand_req(self, rhs: Vector2) -> bool {
        true
    }

    open spec fn bitand_spec(self, rhs: Vector2) -> Vector2 {
        Vector2 { x: self.x & rhs.x, y: self.y & rhs.y }
    }
}

impl core::ops::BitOr for Vector2 {
    type Output = Vector2;

    fn bitor(self, rhs: Vector2) -> (r: Vector2)
        ensures
            r.x == self.x | rhs.x,
            r.y == self.y | rhs.y,
    {
        Vector2 { x: self.x | rhs.x, y: self.y | rhs.y }
    }
}

impl vstd::std_specs::ops::BitOrSpecImpl for Vector2 {
    open spec fn obeys_bitor_spec() -> bool {
        true
    }

    open spec fn bitor_req(self, rhs: Vector2) -> bool {
        true
    }

    open spec fn bitor_spec(self, rhs: Vector2) -> Vector2 {
        Vector2 { x: self.x | rhs.x, y: self.y | rhs.y }
    }
}

impl core::ops::BitXor for Vector2 {
    type Output = Vector2;

    fn bitxor(self, rhs: Vector2) -> (r: Vector2)
        ensures
            r.x == self.x ^ rhs.x,
            r.y == self.y ^ rhs.y,
    {
        Vector2 { x: self.x ^ rhs.x, y: self.y ^ rhs.y }
    }
}

impl vstd::std_specs::ops::BitXorSpecImpl for Vector2 {
    open spec fn obeys_bitxor_spec() -> bool {
        true
    }

    open spec fn bitxor_req(self, rhs: Vector2) -> bool {
        true
    }

    open spec fn bitxor_spec(self, rhs: Vector2) -> Vector2 {
        Vector2 { x: self.x ^ rhs.x, y: self.y ^ rhs.y }
    }
}

/// Position within the physical world.
///
/// An entity must have a position to be moved by physics. Each axis spans
/// the whole range of [`CoordT`].
#[derive(Clone, Copy, Debug, PartialEq, Eq, Structural)]
pub struct Position(pub Point2);

impl View for Position {
    type V = (int, int);

    open spec fn view(&self) -> (int, int) {
        self.0@
    }
}

impl Position {
    /// Construct a new position at provided coordinates.
    #[inline(always)]
    pub fn new(x: CoordT, y: CoordT) -> (r: Self)
        ensures
            r.0.x == x,
            r.0.y == y,
    {
        Position(Vector2 { x, y })
    }
}

impl Default for Position {
    fn default() -> (r: Self)
        ensures
            r.0.x == 0,
            r.0.y == 0,
    {
        Position(Vector2 { x: 0, y: 0 })
    }
}

impl AsRef<Point2> for Position {
    #[inline(always)]
    fn as_ref(&self) -> (r: &Point2)
        ensures
            *r == self.0,
    {
        &self.0
    }
}

impl AsMut<Point2> for Position {
    #[inline(always)]
    fn as_mut(&mut self) -> (r: &mut Point2)
        ensures
            *r == old(self).0,
            final(self).0 == *final(r),
    {
        &mut self.0
    }
}

} // verus!
