//! World coordinates, sizes and boxes.
//!
//! A world coordinate is a whole number of position units; one pixel is
//! [`UNITS_PER_PIXEL`] of them. A velocity is a number of position units per
//! nanosecond, so that a displacement is the exact product of a velocity and
//! a span of time: nothing is rounded when something moves. A velocity of one
//! pixel per reference tick (a sixtieth of a second) is [`PIXEL_PER_TICK`].
//!
//! Coordinates are held in `i64`. A move that would leave that range stops at
//! its edge, more than nine hundred million pixels away from the origin.

use vstd::prelude::*;
use crate::time::Duration;

verus! {

/// Position units in one pixel.
pub const UNITS_PER_PIXEL: i64 = 10_000_000_000;

/// The velocity of one pixel per reference tick, in position units per
/// nanosecond.
pub const PIXEL_PER_TICK: i64 = 600;

/// The coordinate nearest to `v` that an `i64` can hold.
pub open spec fn clamp_coord(v: int) -> i64 {
    if v > i64::MAX {
        i64::MAX
    } else if v < i64::MIN {
        i64::MIN
    } else {
        v as i64
    }
}

/// Half of `v`, rounded toward zero.
pub open spec fn half(v: int) -> int {
    if v >= 0 {
        v / 2
    } else {
        -((-v) / 2)
    }
}

/// Three fifths of `v`, rounded toward zero.
pub open spec fn three_fifths(v: int) -> int {
    if v >= 0 {
        (3 * v) / 5
    } else {
        -((3 * -v) / 5)
    }
}

/// A point of the plane, `y` growing downward.
#[derive(Copy, Debug, PartialEq, Eq, Structural)]
pub struct Point<T: Copy> {
    pub x: T,
    pub y: T,
}

impl<T: Copy> Clone for Point<T> {
    fn clone(&self) -> (copy: Self)
        ensures
            copy == *self,
    {
        *self
    }
}

/// A velocity in position units per nanosecond.
#[derive(Clone, Copy, Debug, PartialEq, Eq, Structural)]
pub struct Vector {
    pub x: i64,
    pub y: i64,
}

/// A width and a height.
#[derive(Copy, Debug, PartialEq, Eq, Structural)]
pub struct Dimensions<T: Copy> {
    pub w: T,
    pub h: T,
}

impl<T: Copy> Clone for Dimensions<T> {
    fn clone(&self) -> (copy: Self)
        ensures
            copy == *self,
    {
        *self
    }
}

impl<T: Copy> From<(T, T)> for Dimensions<T> {
    /// The size of the given width and height.
    fn from(pair: (T, T)) -> (dims: Dimensions<T>) {
        Dimensions { w: pair.0, h: pair.1 }
    }
}

impl<T: Copy> vstd::std_specs::convert::FromSpecImpl<(T, T)> for Dimensions<T> {
    open spec fn obeys_from_spec() -> bool {
        true
    }

    open spec fn from_spec(pair: (T, T)) -> Dimensions<T> {
        Dimensions { w: pair.0, h: pair.1 }
    }
}

/// A rectangle given by its top left corner and its size. The right and
/// bottom edges do not belong to it.
#[derive(Copy, Debug, PartialEq, Eq, Structural)]
pub struct Rect<T: Copy> {
    pub top_left: Point<T>,
    pub dims: Dimensions<T>,
}

impl<T: Copy> Clone for Rect<T> {
    fn clone(&self) -> (copy: Self)
        ensures
            copy == *self,
    {
        *self
    }
}

/// A rectangle in world coordinates.
pub type RectF = Rect<i64>;

/// A rectangle in whole pixels.
pub type RectI = Rect<i32>;

/// A rectangle in whole pixels right of and below the origin.
pub type RectU = Rect<u32>;

/// A rectangle given by its center and its size.
#[derive(Clone, Copy, Debug, PartialEq, Eq, Structural)]
pub struct CenteredBox {
    pub center: Point<i64>,
    pub dims: Dimensions<i64>,
}

/// The product of a velocity component and a span of time fits in 128 bits.
pub proof fn lemma_displacement_fits(v: i64, nanos: u64)
    ensures
        -0x8000_0000_0000_0000 * 0xffff_ffff_ffff_ffff <= v * nanos,
        v * nanos <= 0x7fff_ffff_ffff_ffff * 0xffff_ffff_ffff_ffff,
{
    assert(-0x8000_0000_0000_0000 * 0xffff_ffff_ffff_ffff <= v * nanos
        <= 0x7fff_ffff_ffff_ffff * 0xffff_ffff_ffff_ffff) by (nonlinear_arith)
        requires
            -0x8000_0000_0000_0000 <= v <= 0x7fff_ffff_ffff_ffff,
            0 <= nanos <= 0xffff_ffff_ffff_ffff,
    ;
}

/// `v` held to the range of `i64`.
fn clamp_to_coord(v: i128) -> (c: i64)
    ensures
        c == clamp_coord(v as int),
{
    if v > i64::MAX as i128 {
        i64::MAX
    } else if v < i64::MIN as i128 {
        i64::MIN
    } else {
        v as i64
    }
}

/// Where a coordinate is after `span` at velocity `v`.
fn move_coord(c: i64, v: i64, span: Duration) -> (moved: i64)
    ensures
        moved == clamp_coord(c + v * span.nanos),
{
    proof {
        lemma_displacement_fits(v, span.nanos);
    }
    let step: i128 = (v as i128) * (span.nanos as i128);
    clamp_to_coord(c as i128 + step)
}

impl Point<i64> {
    /// Where the point is after moving for `span` at velocity `vel`.
    pub open spec fn spec_moved(self, vel: Vector, span: Duration) -> Point<i64> {
        Point {
            x: clamp_coord(self.x + vel.x * span.nanos),
            y: clamp_coord(self.y + vel.y * span.nanos),
        }
    }

    /// The point moved for `span` at velocity `vel`.
    #[verifier::when_used_as_spec(spec_moved)]
    pub fn moved(self, vel: Vector, span: Duration) -> (p: Point<i64>)
        ensures
            p == self.spec_moved(vel, span),
    {
        Point { x: move_coord(self.x, vel.x, span), y: move_coord(self.y, vel.y, span) }
    }

    /// The point `dy` units further down (up when `dy` is negative).
    pub open spec fn spec_lowered(self, dy: int) -> Point<i64> {
        Point { x: self.x, y: clamp_coord(self.y + dy) }
    }

    /// The point `dy` units further down (up when `dy` is negative).
    pub fn lowered(self, dy: i64) -> (p: Point<i64>)
        ensures
            p == self.spec_lowered(dy as int),
    {
        Point { x: self.x, y: clamp_to_coord(self.y as i128 + dy as i128) }
    }
}

/// Half of `v`, rounded toward zero.
pub fn half_of(v: i64) -> (h: i64)
    ensures
        h == half(v as int),
{
    v / 2
}

/// Three fifths of `v`, rounded toward zero.
pub fn three_fifths_of(v: i64) -> (t: i64)
    ensures
        t == three_fifths(v as int),
{
    ((3 * (v as i128)) / 5) as i64
}

impl Vector {
    /// The velocity of something at rest.
    pub open spec fn spec_zero() -> Vector {
        Vector { x: 0, y: 0 }
    }

    /// The velocity of something at rest.
    #[verifier::when_used_as_spec(spec_zero)]
    pub fn zero() -> (v: Vector)
        ensures
            v == Vector::spec_zero(),
    {
        Vector { x: 0, y: 0 }
    }
}

impl Rect<i64> {
    /// Whether `coords` lies in the rectangle: on or after its left and top
    /// edges, before its right and bottom edges.
    pub open spec fn spec_contains(&self, coords: Point<i64>) -> bool {
        &&& self.top_left.x <= coords.x < self.top_left.x + self.dims.w
        &&& self.top_left.y <= coords.y < self.top_left.y + self.dims.h
    }

    /// Whether `coords` lies in the rectangle.
    #[verifier::when_used_as_spec(spec_contains)]
    pub fn contains(&self, coords: Point<i64>) -> (inside: bool)
        ensures
            inside == self.spec_contains(coords),
    {
        let right: i128 = self.top_left.x as i128 + self.dims.w as i128;
        let bottom: i128 = self.top_left.y as i128 + self.dims.h as i128;
        self.top_left.x <= coords.x && (coords.x as i128) < right && self.top_left.y <= coords.y
            && (coords.y as i128) < bottom
    }
}

impl Dimensions<i64> {
    /// The rectangle of this size whose top left corner is the origin.
    pub open spec fn spec_into_rect(self) -> Rect<i64> {
        Rect { top_left: Point { x: 0, y: 0 }, dims: self }
    }

    /// The rectangle of this size whose top left corner is the origin.
    #[verifier::when_used_as_spec(spec_into_rect)]
    pub fn into_rect(self) -> (rect: Rect<i64>)
        ensures
            rect == self.spec_into_rect(),
    {
        Rect { top_left: Point { x: 0, y: 0 }, dims: self }
    }
}

impl CenteredBox {
    /// Whether `coords` lies in the box: on or after its left and top edges,
    /// before its right and bottom edges. The edges lie half the size away
    /// from the center; both sides are doubled here so that an odd size
    /// loses nothing.
    pub open spec fn spec_contains(&self, coords: Point<i64>) -> bool {
        &&& 2 * self.center.x - self.dims.w <= 2 * coords.x < 2 * self.center.x + self.dims.w
        &&& 2 * self.center.y - self.dims.h <= 2 * coords.y < 2 * self.center.y + self.dims.h
    }

    /// Whether `coords` lies in the box.
    #[verifier::when_used_as_spec(spec_contains)]
    pub fn contains(&self, coords: Point<i64>) -> (inside: bool)
        ensures
            inside == self.spec_contains(coords),
    {
        let cx: i128 = 2 * (self.center.x as i128);
        let cy: i128 = 2 * (self.center.y as i128);
        let x: i128 = 2 * (coords.x as i128);
        let y: i128 = 2 * (coords.y as i128);
        let w: i128 = self.dims.w as i128;
        let h: i128 = self.dims.h as i128;
        cx - w <= x && x < cx + w && cy - h <= y && y < cy + h
    }
}

/// Whether two intervals meet, each given by its center and its length.
/// Their ends count: intervals that only touch do meet. Both sides of each
/// comparison are doubled so that an odd length loses nothing.
pub open spec fn intervals_meet(center_a: int, len_a: int, center_b: int, len_b: int) -> bool {
    &&& 2 * center_a + len_a >= 2 * center_b - len_b
    &&& 2 * center_a - len_a <= 2 * center_b + len_b
}

/// Whether two boxes, each given by its center and its size, overlap: their
/// extents meet on both axes.
pub open spec fn spec_collide_rectangle(
    pos_a: Point<i64>,
    size_a: Dimensions<i64>,
    pos_b: Point<i64>,
    size_b: Dimensions<i64>,
) -> bool {
    &&& intervals_meet(pos_a.x as int, size_a.w as int, pos_b.x as int, size_b.w as int)
    &&& intervals_meet(pos_a.y as int, size_a.h as int, pos_b.y as int, size_b.h as int)
}

/// Whether one pair of extents meets.
fn extents_meet(center_a: i64, len_a: i64, center_b: i64, len_b: i64) -> (meet: bool)
    ensures
        meet == intervals_meet(center_a as int, len_a as int, center_b as int, len_b as int),
{
    let a: i128 = 2 * (center_a as i128);
    let b: i128 = 2 * (center_b as i128);
    let la: i128 = len_a as i128;
    let lb: i128 = len_b as i128;
    a + la >= b - lb && a - la <= b + lb
}

/// Whether two centered boxes overlap.
#[verifier::when_used_as_spec(spec_collide_rectangle)]
pub fn collide_rectangle(
    pos_a: Point<i64>,
    size_a: Dimensions<i64>,
    pos_b: Point<i64>,
    size_b: Dimensions<i64>,
) -> (hit: bool)
    ensures
        hit == spec_collide_rectangle(pos_a, size_a, pos_b, size_b),
{
    extents_meet(pos_a.x, size_a.w, pos_b.x, size_b.w) && extents_meet(
        pos_a.y,
        size_a.h,
        pos_b.y,
        size_b.h,
    )
}

/// Overlap does not depend on the order in which two boxes are given.
pub proof fn lemma_collide_symmetric(
    pos_a: Point<i64>,
    size_a: Dimensions<i64>,
    pos_b: Point<i64>,
    size_b: Dimensions<i64>,
)
    ensures
        spec_collide_rectangle(pos_a, size_a, pos_b, size_b) == spec_collide_rectangle(
            pos_b,
            size_b,
            pos_a,
            size_a,
        ),
{
}

} // verus!
