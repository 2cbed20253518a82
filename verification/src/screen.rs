//! Whole pixels: the rectangles that are drawn, and how world coordinates
//! and sizes become pixels.
//!
//! World coordinates float between the pixels. A world coordinate becomes
//! the nearest pixel, a half going away from zero. A pixel coordinate that
//! an `i32` cannot hold becomes the nearest that it can.

use vstd::prelude::*;
use crate::coords::{Dimensions, Point, Rect, RectI, UNITS_PER_PIXEL};

verus! {

/// The width of a character of the font, in pixels of the font sheet.
pub const CHAR_WIDTH: u32 = 4;

/// The height of a character of the font, in pixels of the font sheet.
pub const CHAR_HEIGHT: u32 = 6;

/// The height of the bar that shows the hit points of an enemy, and how far
/// it stands above the enemy, in pixels.
pub const LIFE_BAR_HEIGHT: i32 = 8;

/// The number nearest to `v` that an `i32` can hold.
pub open spec fn clamp_i32(v: int) -> i32 {
    if v > i32::MAX {
        i32::MAX
    } else if v < i32::MIN {
        i32::MIN
    } else {
        v as i32
    }
}

/// The number nearest to `v` that a `u32` can hold.
pub open spec fn clamp_u32(v: int) -> u32 {
    if v > u32::MAX {
        u32::MAX
    } else if v < 0 {
        0
    } else {
        v as u32
    }
}

/// The quotient of `num` by `den`, rounded toward zero.
pub open spec fn quotient(num: int, den: int) -> int
    recommends
        den > 0,
{
    if num >= 0 {
        num / den
    } else {
        -((-num) / den)
    }
}

/// The whole number nearest to `num / den`, a half going away from zero.
pub open spec fn nearest(num: int, den: int) -> int
    recommends
        den > 0,
{
    quotient(if num >= 0 {
        2 * num + den
    } else {
        2 * num - den
    }, 2 * den)
}

/// The size of a character of the font.
pub open spec fn spec_char_dims() -> Dimensions<u32> {
    Dimensions { w: CHAR_WIDTH, h: CHAR_HEIGHT }
}

/// The size of a character of the font.
#[verifier::when_used_as_spec(spec_char_dims)]
pub fn char_dims() -> (dims: Dimensions<u32>)
    ensures
        dims == spec_char_dims(),
{
    Dimensions { w: CHAR_WIDTH, h: CHAR_HEIGHT }
}

/// `v` held to the range of `i32`.
fn clamp_to_i32(v: i128) -> (c: i32)
    ensures
        c == clamp_i32(v as int),
{
    if v > i32::MAX as i128 {
        i32::MAX
    } else if v < i32::MIN as i128 {
        i32::MIN
    } else {
        v as i32
    }
}

/// The whole number nearest to `num / den`.
fn nearest_to(num: i128, den: i128) -> (n: i128)
    requires
        0 < den < 0x1000_0000_0000_0000_0000_0000,
        -0x1000_0000_0000_0000_0000_0000_0000 < num < 0x1000_0000_0000_0000_0000_0000_0000,
    ensures
        n == nearest(num as int, den as int),
{
    if num >= 0 {
        (2 * num + den) / (2 * den)
    } else {
        -((den - 2 * num) / (2 * den))
    }
}

/// Casts an unsigned number to a signed one of the same width.
///
/// This is `num::cast`, which returns the number where the signed type can
/// hold it and nothing where it cannot.
#[verifier::external_body]
fn cast_to_i32(n: u32) -> (cast: Option<i32>)
    ensures
        cast == if n <= i32::MAX {
            Some(n as i32)
        } else {
            None::<i32>
        },
{
    num::cast::<u32, i32>(n)
}

impl Dimensions<u32> {
    /// Whether a signed size can hold this one.
    pub open spec fn spec_fits_signed(&self) -> bool {
        self.w <= i32::MAX && self.h <= i32::MAX
    }

    /// Whether a signed size can hold this one.
    #[verifier::when_used_as_spec(spec_fits_signed)]
    pub fn fits_signed(&self) -> (fits: bool)
        ensures
            fits == self.spec_fits_signed(),
    {
        self.w <= 0x7fff_ffff && self.h <= 0x7fff_ffff
    }

    /// The same size in signed numbers.
    pub fn into_dim(self) -> (dims: Dimensions<i32>)
        requires
            self.spec_fits_signed(),
        ensures
            dims.w == self.w,
            dims.h == self.h,
    {
        match (cast_to_i32(self.w), cast_to_i32(self.h)) {
            (Some(w), Some(h)) => Dimensions { w, h },
            _ => vstd::pervasive::unreached(),
        }
    }

    /// The rectangle of this size whose top left corner is the origin.
    pub fn into_rect(self) -> (rect: Rect<i32>)
        requires
            self.spec_fits_signed(),
        ensures
            rect.top_left == (Point { x: 0i32, y: 0i32 }),
            rect.dims.w == self.w,
            rect.dims.h == self.h,
    {
        Rect { top_left: Point { x: 0, y: 0 }, dims: self.into_dim() }
    }
}

/// The size of the box of a text of `str_len` characters at the given scale,
/// in pixels.
pub fn text_box(str_len: usize, scale: u32) -> (dims: Dimensions<i32>)
    requires
        str_len * CHAR_WIDTH * scale <= i32::MAX,
        CHAR_HEIGHT * scale <= i32::MAX,
    ensures
        dims.w == str_len * CHAR_WIDTH * scale,
        dims.h == CHAR_HEIGHT * scale,
{
    let glyph = char_dims().into_dim();
    if scale == 0 || str_len == 0 {
        assert(str_len * CHAR_WIDTH * scale == 0) by (nonlinear_arith)
            requires
                scale == 0 || str_len == 0,
        ;
        return Dimensions { w: 0, h: 1 } * glyph * (scale as i32);
    }
    assert(str_len <= str_len * CHAR_WIDTH * scale && str_len * CHAR_WIDTH <= str_len * CHAR_WIDTH
        * scale) by (nonlinear_arith)
        requires
            scale >= 1,
            CHAR_WIDTH == 4,
    ;
    Dimensions { w: str_len as i32, h: 1 } * glyph * (scale as i32)
}

/// The pixel nearest to the world coordinate `twice / 2`.
pub open spec fn pixel_of_half(twice: int) -> i32 {
    clamp_i32(nearest(twice, 2 * UNITS_PER_PIXEL))
}

/// The pixel nearest to the world coordinate `twice / 2`, with the world
/// scaled by `scale4 / 4`.
pub open spec fn scaled_pixel_of_half(twice: int, scale4: u32) -> i32 {
    clamp_i32(nearest(twice * scale4, 8 * UNITS_PER_PIXEL))
}

/// A pixel coordinate or length scaled by `scale4 / 4`, rounded toward
/// zero.
pub open spec fn scaled_by_quarters(v: i32, scale4: u32) -> i32 {
    clamp_i32(quotient(scale4 * v, 4))
}

/// The pixel nearest to the world coordinate `twice / 2`.
fn to_pixel_of_half(twice: i128) -> (px: i32)
    requires
        -0x2_0000_0000_0000_0000 <= twice <= 0x2_0000_0000_0000_0000,
    ensures
        px == pixel_of_half(twice as int),
{
    clamp_to_i32(nearest_to(twice, 2 * (UNITS_PER_PIXEL as i128)))
}

/// The pixel nearest to the world coordinate `twice / 2`, scaled.
fn to_scaled_pixel_of_half(twice: i128, scale4: u32) -> (px: i32)
    requires
        -0x2_0000_0000_0000_0000 <= twice <= 0x2_0000_0000_0000_0000,
    ensures
        px == scaled_pixel_of_half(twice as int, scale4),
{
    assert(-0x2_0000_0000_0000_0000 * 0xffff_ffff <= twice * scale4 <= 0x2_0000_0000_0000_0000
        * 0xffff_ffff) by (nonlinear_arith)
        requires
            -0x2_0000_0000_0000_0000 <= twice <= 0x2_0000_0000_0000_0000,
            0 <= scale4 <= 0xffff_ffff,
    ;
    clamp_to_i32(nearest_to(twice * (scale4 as i128), 8 * (UNITS_PER_PIXEL as i128)))
}

/// A pixel coordinate or length scaled by `scale4 / 4`.
fn scale_by_quarters(v: i32, scale4: u32) -> (scaled: i32)
    ensures
        scaled == scaled_by_quarters(v, scale4),
{
    assert(-0x8000_0000 * 0xffff_ffff <= scale4 * v <= 0x7fff_ffff * 0xffff_ffff)
        by (nonlinear_arith)
        requires
            -0x8000_0000 <= v <= 0x7fff_ffff,
            0 <= scale4 <= 0xffff_ffff,
    ;
    let product: i128 = (scale4 as i128) * (v as i128);
    clamp_to_i32(product / 4)
}

impl Rect<i32> {
    /// Whether `coords` lies in the rectangle: on or after its left and top
    /// edges, before its right and bottom edges.
    pub open spec fn spec_contains(&self, coords: Point<i32>) -> bool {
        &&& self.top_left.x <= coords.x < self.top_left.x + self.dims.w
        &&& self.top_left.y <= coords.y < self.top_left.y + self.dims.h
    }

    /// The rectangle scaled by `scale4 / 4` about the origin.
    pub open spec fn spec_scale4(self, scale4: u32) -> Rect<i32> {
        Rect {
            top_left: Point {
                x: scaled_by_quarters(self.top_left.x, scale4),
                y: scaled_by_quarters(self.top_left.y, scale4),
            },
            dims: Dimensions {
                w: scaled_by_quarters(self.dims.w, scale4),
                h: scaled_by_quarters(self.dims.h, scale4),
            },
        }
    }

    /// The rectangle moved by the given numbers of pixels.
    pub open spec fn spec_offset(self, offset_x: i32, offset_y: i32) -> Rect<i32> {
        Rect {
            top_left: Point {
                x: clamp_i32(self.top_left.x + offset_x),
                y: clamp_i32(self.top_left.y + offset_y),
            },
            dims: self.dims,
        }
    }

    /// The rectangle of a box of the world with the given center and size:
    /// the pixels nearest to its left and upper edges, and to its size.
    pub open spec fn spec_from_float(pos: Point<i64>, dims: Dimensions<i64>) -> Rect<i32> {
        Rect {
            top_left: Point {
                x: pixel_of_half(2 * pos.x - dims.w),
                y: pixel_of_half(2 * pos.y - dims.h),
            },
            dims: Dimensions { w: pixel_of_half(2 * dims.w), h: pixel_of_half(2 * dims.h) },
        }
    }

    /// The rectangle of a box of the world with the given center and size,
    /// with the world scaled by `scale4 / 4`.
    pub open spec fn spec_from_float_scale(pos: Point<i64>, dims: Dimensions<i64>, scale4: u32) -> Rect<
        i32,
    > {
        Rect {
            top_left: Point {
                x: scaled_pixel_of_half(2 * pos.x - dims.w, scale4),
                y: scaled_pixel_of_half(2 * pos.y - dims.h, scale4),
            },
            dims: Dimensions {
                w: scaled_pixel_of_half(2 * dims.w, scale4),
                h: scaled_pixel_of_half(2 * dims.h, scale4),
            },
        }
    }

    /// The whole bar above a box of the world with the given center and
    /// size: as wide as the box, and as high as it stands above it.
    pub open spec fn spec_life_bar_full(pos: Point<i64>, dims: Dimensions<i64>) -> Rect<i32> {
        Rect {
            top_left: Point {
                x: pixel_of_half(2 * pos.x - dims.w),
                y: clamp_i32(pixel_of_half(2 * pos.y - dims.h) - LIFE_BAR_HEIGHT),
            },
            dims: Dimensions { w: pixel_of_half(2 * dims.w), h: LIFE_BAR_HEIGHT },
        }
    }

    /// The part of that bar that stands for `hp` hit points out of
    /// `max_hp`: the same share of its width, empty where `max_hp` is zero.
    pub open spec fn spec_life_bar(pos: Point<i64>, dims: Dimensions<i64>, hp: u32, max_hp: u32) -> Rect<
        i32,
    > {
        Rect {
            top_left: Point {
                x: pixel_of_half(2 * pos.x - dims.w),
                y: clamp_i32(pixel_of_half(2 * pos.y - dims.h) - LIFE_BAR_HEIGHT),
            },
            dims: Dimensions {
                w: if max_hp == 0 {
                    0
                } else {
                    clamp_i32(nearest(dims.w * hp, UNITS_PER_PIXEL * max_hp))
                },
                h: LIFE_BAR_HEIGHT,
            },
        }
    }

    /// Whether `coords` lies in the rectangle.
    #[verifier::when_used_as_spec(spec_contains)]
    pub fn contains(&self, coords: Point<i32>) -> (inside: bool)
        ensures
            inside == self.spec_contains(coords),
    {
        let right: i64 = self.top_left.x as i64 + self.dims.w as i64;
        let bottom: i64 = self.top_left.y as i64 + self.dims.h as i64;
        self.top_left.x <= coords.x && (coords.x as i64) < right && self.top_left.y <= coords.y
            && (coords.y as i64) < bottom
    }

    /// The rectangle scaled by `scale4 / 4` about the origin.
    #[verifier::when_used_as_spec(spec_scale4)]
    pub fn scale4(self, scale4: u32) -> (scaled: Rect<i32>)
        ensures
            scaled == self.spec_scale4(scale4),
    {
        Rect {
            top_left: Point {
                x: scale_by_quarters(self.top_left.x, scale4),
                y: scale_by_quarters(self.top_left.y, scale4),
            },
            dims: Dimensions {
                w: scale_by_quarters(self.dims.w, scale4),
                h: scale_by_quarters(self.dims.h, scale4),
            },
        }
    }

    /// The rectangle moved by the given numbers of pixels.
    #[verifier::when_used_as_spec(spec_offset)]
    pub fn offset(self, offset_x: i32, offset_y: i32) -> (moved: Rect<i32>)
        ensures
            moved == self.spec_offset(offset_x, offset_y),
    {
        Rect {
            top_left: Point {
                x: clamp_to_i32(self.top_left.x as i128 + offset_x as i128),
                y: clamp_to_i32(self.top_left.y as i128 + offset_y as i128),
            },
            dims: self.dims,
        }
    }

    /// The rectangle, given in pixels of the smallest window, as it stands
    /// in a window scaled by `scale4 / 4` whose interface begins
    /// `interface_begin` pixels from the left.
    pub fn to_interface(self, interface_begin: i32, scale4: u32) -> (placed: Rect<i32>)
        ensures
            placed == self.spec_scale4(scale4).spec_offset(interface_begin, 0),
    {
        self.scale4(scale4).offset(interface_begin, 0)
    }

    /// The rectangle of a box of the world with the given center and size.
    #[verifier::when_used_as_spec(spec_from_float)]
    pub fn from_float(pos: Point<i64>, dims: Dimensions<i64>) -> (rect: Rect<i32>)
        ensures
            rect == Rect::<i32>::spec_from_float(pos, dims),
    {
        Rect {
            top_left: Point {
                x: to_pixel_of_half(2 * (pos.x as i128) - dims.w as i128),
                y: to_pixel_of_half(2 * (pos.y as i128) - dims.h as i128),
            },
            dims: Dimensions {
                w: to_pixel_of_half(2 * (dims.w as i128)),
                h: to_pixel_of_half(2 * (dims.h as i128)),
            },
        }
    }

    /// The rectangle of a box of the world, with the world scaled by
    /// `scale4 / 4`.
    #[verifier::when_used_as_spec(spec_from_float_scale)]
    pub fn from_float_scale(pos: Point<i64>, dims: Dimensions<i64>, scale4: u32) -> (rect: Rect<i32>)
        ensures
            rect == Rect::<i32>::spec_from_float_scale(pos, dims, scale4),
    {
        Rect {
            top_left: Point {
                x: to_scaled_pixel_of_half(2 * (pos.x as i128) - dims.w as i128, scale4),
                y: to_scaled_pixel_of_half(2 * (pos.y as i128) - dims.h as i128, scale4),
            },
            dims: Dimensions {
                w: to_scaled_pixel_of_half(2 * (dims.w as i128), scale4),
                h: to_scaled_pixel_of_half(2 * (dims.h as i128), scale4),
            },
        }
    }

    /// The whole bar above a box of the world.
    #[verifier::when_used_as_spec(spec_life_bar_full)]
    pub fn life_bar_full(pos: Point<i64>, dims: Dimensions<i64>) -> (bar: Rect<i32>)
        ensures
            bar == Rect::<i32>::spec_life_bar_full(pos, dims),
    {
        let top = to_pixel_of_half(2 * (pos.y as i128) - dims.h as i128);
        Rect {
            top_left: Point {
                x: to_pixel_of_half(2 * (pos.x as i128) - dims.w as i128),
                y: clamp_to_i32(top as i128 - LIFE_BAR_HEIGHT as i128),
            },
            dims: Dimensions { w: to_pixel_of_half(2 * (dims.w as i128)), h: LIFE_BAR_HEIGHT },
        }
    }

    /// The part of the bar that stands for `hp` hit points out of `max_hp`.
    #[verifier::when_used_as_spec(spec_life_bar)]
    pub fn life_bar(pos: Point<i64>, dims: Dimensions<i64>, hp: u32, max_hp: u32) -> (bar: Rect<i32>)
        ensures
            bar == Rect::<i32>::spec_life_bar(pos, dims, hp, max_hp),
    {
        let top = to_pixel_of_half(2 * (pos.y as i128) - dims.h as i128);
        let w = if max_hp == 0 {
            0
        } else {
            assert(-0x8000_0000_0000_0000 * 0xffff_ffff <= dims.w * hp <= 0x7fff_ffff_ffff_ffff
                * 0xffff_ffff) by (nonlinear_arith)
                requires
                    -0x8000_0000_0000_0000 <= dims.w <= 0x7fff_ffff_ffff_ffff,
                    0 <= hp <= 0xffff_ffff,
            ;
            assert(0 < UNITS_PER_PIXEL * max_hp <= 10_000_000_000 * 0xffff_ffff)
                by (nonlinear_arith)
                requires
                    UNITS_PER_PIXEL == 10_000_000_000,
                    0 < max_hp <= 0xffff_ffff,
            ;
            clamp_to_i32(
                nearest_to(
                    (dims.w as i128) * (hp as i128),
                    (UNITS_PER_PIXEL as i128) * (max_hp as i128),
                ),
            )
        };
        Rect {
            top_left: Point {
                x: to_pixel_of_half(2 * (pos.x as i128) - dims.w as i128),
                y: clamp_to_i32(top as i128 - LIFE_BAR_HEIGHT as i128),
            },
            dims: Dimensions { w, h: LIFE_BAR_HEIGHT },
        }
    }
}

/// `v` held to the range of `u32`.
fn clamp_to_u32(v: u128) -> (c: u32)
    ensures
        c == clamp_u32(v as int),
{
    if v > u32::MAX as u128 {
        u32::MAX
    } else {
        v as u32
    }
}

/// An unsigned pixel coordinate or length scaled by `scale4 / 4`, rounded
/// down.
pub open spec fn unsigned_scaled_by_quarters(v: u32, scale4: u32) -> u32 {
    clamp_u32((scale4 * v) / 4)
}

/// An unsigned pixel coordinate or length scaled by `scale4 / 4`.
fn unsigned_scale_by_quarters(v: u32, scale4: u32) -> (scaled: u32)
    ensures
        scaled == unsigned_scaled_by_quarters(v, scale4),
{
    assert(0 <= scale4 * v <= 0xffff_ffff * 0xffff_ffff) by (nonlinear_arith)
        requires
            0 <= v <= 0xffff_ffff,
            0 <= scale4 <= 0xffff_ffff,
    ;
    clamp_to_u32(((scale4 as u128) * (v as u128)) / 4)
}

impl Rect<u32> {
    /// The rectangle scaled by `scale4 / 4` about the origin.
    pub open spec fn spec_scale4(self, scale4: u32) -> Rect<u32> {
        Rect {
            top_left: Point {
                x: unsigned_scaled_by_quarters(self.top_left.x, scale4),
                y: unsigned_scaled_by_quarters(self.top_left.y, scale4),
            },
            dims: Dimensions {
                w: unsigned_scaled_by_quarters(self.dims.w, scale4),
                h: unsigned_scaled_by_quarters(self.dims.h, scale4),
            },
        }
    }

    /// The rectangle moved right and down by the given numbers of pixels.
    pub open spec fn spec_offset(self, offset_x: u32, offset_y: u32) -> Rect<u32> {
        Rect {
            top_left: Point {
                x: clamp_u32(self.top_left.x + offset_x),
                y: clamp_u32(self.top_left.y + offset_y),
            },
            dims: self.dims,
        }
    }

    /// The rectangle scaled by `scale4 / 4` about the origin.
    #[verifier::when_used_as_spec(spec_scale4)]
    pub fn scale4(self, scale4: u32) -> (scaled: Rect<u32>)
        ensures
            scaled == self.spec_scale4(scale4),
    {
        Rect {
            top_left: Point {
                x: unsigned_scale_by_quarters(self.top_left.x, scale4),
                y: unsigned_scale_by_quarters(self.top_left.y, scale4),
            },
            dims: Dimensions {
                w: unsigned_scale_by_quarters(self.dims.w, scale4),
                h: unsigned_scale_by_quarters(self.dims.h, scale4),
            },
        }
    }

    /// The rectangle moved right and down by the given numbers of pixels.
    #[verifier::when_used_as_spec(spec_offset)]
    pub fn offset(self, offset_x: u32, offset_y: u32) -> (moved: Rect<u32>)
        ensures
            moved == self.spec_offset(offset_x, offset_y),
    {
        Rect {
            top_left: Point {
                x: clamp_to_u32(self.top_left.x as u128 + offset_x as u128),
                y: clamp_to_u32(self.top_left.y as u128 + offset_y as u128),
            },
            dims: self.dims,
        }
    }

    /// The rectangle, given in pixels of the smallest window, as it stands
    /// in a window scaled by `scale4 / 4` whose interface begins
    /// `interface_begin` pixels from the left.
    pub fn to_interface(self, interface_begin: u32, scale4: u32) -> (placed: Rect<u32>)
        ensures
            placed == self.spec_scale4(scale4).spec_offset(interface_begin, 0),
    {
        self.scale4(scale4).offset(interface_begin, 0)
    }
}

impl Rect<i32> {
    /// Whether the right and bottom edges of the rectangle are coordinates
    /// that an `i32` can hold, so that its pixels can be walked.
    pub open spec fn spec_in_range(&self) -> bool {
        &&& self.top_left.x + self.dims.w <= i32::MAX
        &&& self.top_left.y + self.dims.h <= i32::MAX
    }

    /// Whether the pixels of the rectangle can be walked.
    #[verifier::when_used_as_spec(spec_in_range)]
    pub fn in_range(&self) -> (walkable: bool)
        ensures
            walkable == self.spec_in_range(),
    {
        self.top_left.x as i64 + self.dims.w as i64 <= i32::MAX as i64 && self.top_left.y as i64
            + self.dims.h as i64 <= i32::MAX as i64
    }

    /// A walk over the pixels of the rectangle, row by row from the top,
    /// each row from the left.
    pub fn iter(self) -> (walk: IterPointRect)
        requires
            self.spec_in_range(),
        ensures
            walk == (IterPointRect { current: self.top_left, rect: self }),
            walk.wf(),
    {
        IterPointRect::with_rect(self)
    }
}

/// A walk over the pixels of a rectangle.
#[derive(Clone, Copy, Debug, PartialEq, Eq, Structural)]
pub struct IterPointRect {
    /// The pixel that comes next, if it lies in the rectangle; the walk is
    /// over if it does not.
    pub current: Point<i32>,
    pub rect: RectI,
}

impl IterPointRect {
    /// The pixels of the rectangle can be walked.
    pub open spec fn wf(&self) -> bool {
        self.rect.spec_in_range()
    }

    /// The pixel after `current` in the walk: the one to its right if that
    /// lies in the rectangle, else the first of the row below.
    pub open spec fn spec_successor(&self) -> Point<i32> {
        let right = Point { x: (self.current.x + 1) as i32, y: self.current.y };
        if self.rect.spec_contains(right) {
            right
        } else {
            Point { x: self.rect.top_left.x, y: (self.current.y + 1) as i32 }
        }
    }

    /// The walk that begins at the top left corner of `rect`.
    pub fn with_rect(rect: RectI) -> (walk: IterPointRect)
        requires
            rect.spec_in_range(),
        ensures
            walk == (IterPointRect { current: rect.top_left, rect }),
            walk.wf(),
    {
        IterPointRect { current: rect.top_left, rect }
    }

    /// The walk after its next step: at the pixel after `current`, or where
    /// it was once the walk is over.
    pub open spec fn spec_stepped(self) -> IterPointRect {
        if self.rect.spec_contains(self.current) {
            IterPointRect { current: self.spec_successor(), rect: self.rect }
        } else {
            self
        }
    }

    /// The walk after the given number of steps.
    pub open spec fn spec_after(self, steps: nat) -> IterPointRect
        decreases steps,
    {
        if steps == 0 {
            self
        } else {
            self.spec_after((steps - 1) as nat).spec_stepped()
        }
    }

    /// Hands out the next pixel of the walk and steps to the one after it,
    /// or hands out nothing once the walk is over, and from then on.
    pub fn next(&mut self) -> (pixel: Option<Point<i32>>)
        requires
            old(self).wf(),
        ensures
            final(self).wf(),
            *final(self) == old(self).spec_stepped(),
            pixel == if old(self).rect.spec_contains(old(self).current) {
                Some(old(self).current)
            } else {
                None
            },
    {
        let coords = self.current;
        if !self.rect.contains(coords) {
            return None;
        }
        self.current.x = self.current.x + 1;
        if !self.rect.contains(self.current) {
            self.current.x = self.rect.top_left.x;
            self.current.y = self.current.y + 1;
        }
        Some(coords)
    }
}

/// The pixel of the rectangle that is the `n`-th of its walk, counted from
/// zero: the rows from the top, each from the left.
pub open spec fn nth_pixel(rect: Rect<i32>, n: int) -> Point<i32> {
    Point {
        x: (rect.top_left.x + n % (rect.dims.w as int)) as i32,
        y: (rect.top_left.y + n / (rect.dims.w as int)) as i32,
    }
}

/// A walk visits every pixel of its rectangle once, row by row from the
/// top and each row from the left, and is over after the last.
pub proof fn lemma_walk_visits_every_pixel(rect: Rect<i32>, n: nat)
    requires
        rect.spec_in_range(),
        rect.dims.w > 0,
        rect.dims.h > 0,
        n <= rect.dims.w * rect.dims.h,
    ensures
        ({
            let walk = (IterPointRect { current: rect.top_left, rect }).spec_after(n);
            &&& walk.rect == rect
            &&& n < rect.dims.w * rect.dims.h ==> walk.current == nth_pixel(rect, n as int)
                && rect.spec_contains(walk.current)
            &&& n == rect.dims.w * rect.dims.h ==> !rect.spec_contains(walk.current)
        }),
    decreases n,
{
    let w = rect.dims.w as int;
    let h = rect.dims.h as int;
    let start = IterPointRect { current: rect.top_left, rect };
    assert(0 < w * h) by (nonlinear_arith)
        requires
            w > 0,
            h > 0,
    ;
    if n == 0 {
        assert(0int % w == 0 && 0int / w == 0) by (nonlinear_arith)
            requires
                w > 0,
        ;
    } else {
        let m = (n - 1) as int;
        lemma_walk_visits_every_pixel(rect, m as nat);
        lemma_place_in_rows(m, w, h);
        let q = m / w;
        let r = m % w;
        let before = start.spec_after(m as nat);
        let after = start.spec_after(n);
        assert(after == before.spec_stepped());
        assert(before.current == Point { x: (rect.top_left.x + r) as i32, y: (rect.top_left.y + q) as i32 });
        assert(w * (q + 1) <= w * h) by (nonlinear_arith)
            requires
                q + 1 <= h,
                w > 0,
        ;
        assert(w * (q + 1) == w * q + w) by (nonlinear_arith);
        if r + 1 < w {
            assert(m + 1 == q * w + (r + 1)) by (nonlinear_arith)
                requires
                    m == w * q + r,
            ;
            vstd::arithmetic::div_mod::lemma_fundamental_div_mod_converse(m + 1, w, q, r + 1);
            assert(after.current == nth_pixel(rect, n as int));
            assert(rect.spec_contains(after.current));
            assert(n < w * h);
        } else {
            assert(m + 1 == (q + 1) * w + 0) by (nonlinear_arith)
                requires
                    m == w * q + r,
                    r == w - 1,
            ;
            vstd::arithmetic::div_mod::lemma_fundamental_div_mod_converse(m + 1, w, q + 1, 0);
            assert(after.current == nth_pixel(rect, n as int));
            assert(n == w * (q + 1)) by (nonlinear_arith)
                requires
                    n == (q + 1) * w + 0,
            ;
            if q + 1 < h {
                assert(w * (q + 2) <= w * h) by (nonlinear_arith)
                    requires
                        q + 2 <= h,
                        w > 0,
                ;
                assert(w * (q + 2) == w * (q + 1) + w) by (nonlinear_arith);
            }
        }
    }
}

/// The place of a pixel in the rows of a rectangle that is `w` wide and `h`
/// high: its row is one of the rectangle, its column one of the row.
proof fn lemma_place_in_rows(n: int, w: int, h: int)
    requires
        0 <= n < w * h,
        w > 0,
    ensures
        n == w * (n / w) + n % w,
        0 <= n % w < w,
        0 <= n / w < h,
{
    vstd::arithmetic::div_mod::lemma_fundamental_div_mod(n, w);
    vstd::arithmetic::div_mod::lemma_mod_pos_bound(n, w);
    let q = n / w;
    let r = n % w;
    assert(0 <= q < h) by (nonlinear_arith)
        requires
            n == w * q + r,
            0 <= r < w,
            0 <= n < w * h,
            w > 0,
    ;
}

/// The value of one channel of a color laid over a background with the
/// opacity `alpha` out of 255: the mean of the two, weighted by the
/// opacity, rounded to the nearest whole number.
pub open spec fn blended(color: u8, background: u8, alpha: u8) -> u8 {
    ((2 * (alpha * color + (255 - alpha) * background) + 255) / 510) as u8
}

/// A color laid over a background: opaque, each of its three channels
/// blended by the opacity of the color.
pub open spec fn spec_blend(color: [u8; 4], background: [u8; 4]) -> [u8; 4] {
    [
        blended(color[0], background[0], color[3]),
        blended(color[1], background[1], color[3]),
        blended(color[2], background[2], color[3]),
        255u8,
    ]
}

/// The value of one channel of a color laid over a background.
fn blend_channel(color: u8, background: u8, alpha: u8) -> (value: u8)
    ensures
        value == blended(color, background, alpha),
{
    assert(alpha * color + (255 - alpha) * background <= 255 * 255) by (nonlinear_arith)
        requires
            0 <= alpha <= 255,
            0 <= color <= 255,
            0 <= background <= 255,
    ;
    assert(0 <= alpha * color && 0 <= (255 - alpha) * background) by (nonlinear_arith)
        requires
            0 <= alpha <= 255,
            0 <= color <= 255,
            0 <= background <= 255,
    ;
    let mixed: u32 = (alpha as u32) * (color as u32) + (255 - alpha as u32) * (background as u32);
    ((2 * mixed + 255) / 510) as u8
}

/// A color laid over a background.
#[verifier::when_used_as_spec(spec_blend)]
pub fn blend(color: [u8; 4], background: [u8; 4]) -> (mixed: [u8; 4])
    ensures
        mixed == spec_blend(color, background),
{
    let mixed = [
        blend_channel(color[0], background[0], color[3]),
        blend_channel(color[1], background[1], color[3]),
        blend_channel(color[2], background[2], color[3]),
        255,
    ];
    mixed
}

/// Where the four bytes of a pixel begin in the frame of a window of size
/// `frame`, whose rows follow each other from the top; nothing for a pixel
/// outside the window.
pub open spec fn spec_pixel_byte_index(frame: Dimensions<u32>, coords: Point<i32>) -> Option<int> {
    if 0 <= coords.x < frame.w && 0 <= coords.y < frame.h {
        Some(4 * (coords.y * frame.w + coords.x))
    } else {
        None
    }
}

/// Where the four bytes of a pixel begin in the frame of a window.
pub fn pixel_byte_index(frame: Dimensions<u32>, coords: Point<i32>) -> (index: Option<u128>)
    ensures
        index.is_some() == spec_pixel_byte_index(frame, coords).is_some(),
        index.is_some() ==> index->0 == spec_pixel_byte_index(frame, coords)->0,
{
    if 0 <= coords.x && (coords.x as i64) < frame.w as i64 && 0 <= coords.y && (coords.y as i64)
        < frame.h as i64 {
        assert(0 <= coords.y * frame.w <= 0x7fff_ffff * 0xffff_ffff) by (nonlinear_arith)
            requires
                0 <= coords.y <= 0x7fff_ffff,
                0 <= frame.w <= 0xffff_ffff,
        ;
        Some(4 * ((coords.y as u128) * (frame.w as u128) + coords.x as u128))
    } else {
        None
    }
}

/// One coordinate of the pixel of a sheet that is drawn at `offset` pixels
/// into a length of `extent` pixels of the window, for a sprite that is
/// `side` pixels long and the `place`-th of its row or column.
pub open spec fn sheet_coord(side: u32, place: u32, offset: int, extent: int) -> int {
    side * place + (side * offset) / extent
}

/// One coordinate of the pixel of a sheet that is drawn at `coord` in a
/// length of the window that begins at `begin` and is `extent` long.
pub fn sheet_coord_at(side: u32, place: u32, coord: i32, begin: i32, extent: i32) -> (source: u128)
    requires
        begin <= coord < begin + extent,
    ensures
        source == sheet_coord(side, place, coord - begin, extent as int),
{
    let offset: u128 = (coord as i64 - begin as i64) as u128;
    assert(0 <= side * place <= 0xffff_ffff * 0xffff_ffff) by (nonlinear_arith)
        requires
            0 <= side <= 0xffff_ffff,
            0 <= place <= 0xffff_ffff,
    ;
    assert(0 <= side * offset <= 0xffff_ffff * 0xffff_ffff) by (nonlinear_arith)
        requires
            0 <= side <= 0xffff_ffff,
            0 <= offset <= 0xffff_ffff,
    ;
    (side as u128) * (place as u128) + ((side as u128) * offset) / (extent as u128)
}

} // verus!
