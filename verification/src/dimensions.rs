//! Arithmetic on sizes: a size and a number, a pair of numbers or another
//! size, taken width with width and height with height.
//!
//! As with the numbers themselves, the result must be one that the type of
//! the size can hold: nothing is divided by zero, nor the least number by
//! minus one. A quotient is rounded toward zero.

use vstd::prelude::*;
use crate::coords::Dimensions;

verus! {

/// The quotient of `a` by `b`, rounded toward zero.
pub open spec fn truncated_quotient(a: int, b: int) -> int {
    if a >= 0 {
        a / b
    } else {
        -((-a) / b)
    }
}

/// What an operation on two numbers gives.
pub open spec fn combined(op: int, a: int, b: int) -> int {
    if op == 0 {
        a + b
    } else if op == 1 {
        a - b
    } else if op == 2 {
        a * b
    } else {
        truncated_quotient(a, b)
    }
}

impl core::ops::Add<u32> for Dimensions<u32> {
    type Output = Dimensions<u32>;

    /// Each of the width and the height and `rhs`: their sum.
    fn add(self, rhs: u32) -> (result: Dimensions<u32>) {
        Dimensions { w: self.w + rhs, h: self.h + rhs }
    }
}

impl vstd::std_specs::ops::AddSpecImpl<u32> for Dimensions<u32> {
    open spec fn obeys_add_spec() -> bool {
        true
    }

    open spec fn add_req(self, rhs: u32) -> bool {
        &&& 0 <= combined(0, self.w as int, rhs as int) <= u32::MAX
        &&& 0 <= combined(0, self.h as int, rhs as int) <= u32::MAX
    }

    open spec fn add_spec(self, rhs: u32) -> Dimensions<u32> {
        Dimensions {
            w: combined(0, self.w as int, rhs as int) as u32,
            h: combined(0, self.h as int, rhs as int) as u32,
        }
    }
}

impl core::ops::Add<(u32, u32)> for Dimensions<u32> {
    type Output = Dimensions<u32>;

    /// The width and the first of `rhs`, the height and the second: their sum.
    fn add(self, rhs: (u32, u32)) -> (result: Dimensions<u32>) {
        Dimensions { w: self.w + rhs.0, h: self.h + rhs.1 }
    }
}

impl vstd::std_specs::ops::AddSpecImpl<(u32, u32)> for Dimensions<u32> {
    open spec fn obeys_add_spec() -> bool {
        true
    }

    open spec fn add_req(self, rhs: (u32, u32)) -> bool {
        &&& 0 <= combined(0, self.w as int, rhs.0 as int) <= u32::MAX
        &&& 0 <= combined(0, self.h as int, rhs.1 as int) <= u32::MAX
    }

    open spec fn add_spec(self, rhs: (u32, u32)) -> Dimensions<u32> {
        Dimensions {
            w: combined(0, self.w as int, rhs.0 as int) as u32,
            h: combined(0, self.h as int, rhs.1 as int) as u32,
        }
    }
}

impl core::ops::Add<Dimensions<u32>> for Dimensions<u32> {
    type Output = Dimensions<u32>;

    /// The two widths and the two heights: their sum.
    fn add(self, rhs: Dimensions<u32>) -> (result: Dimensions<u32>) {
        Dimensions { w: self.w + rhs.w, h: self.h + rhs.h }
    }
}

impl vstd::std_specs::ops::AddSpecImpl<Dimensions<u32>> for Dimensions<u32> {
    open spec fn obeys_add_spec() -> bool {
        true
    }

    open spec fn add_req(self, rhs: Dimensions<u32>) -> bool {
        &&& 0 <= combined(0, self.w as int, rhs.w as int) <= u32::MAX
        &&& 0 <= combined(0, self.h as int, rhs.h as int) <= u32::MAX
    }

    open spec fn add_spec(self, rhs: Dimensions<u32>) -> Dimensions<u32> {
        Dimensions {
            w: combined(0, self.w as int, rhs.w as int) as u32,
            h: combined(0, self.h as int, rhs.h as int) as u32,
        }
    }
}

impl core::ops::Add<i32> for Dimensions<i32> {
    type Output = Dimensions<i32>;

    /// Each of the width and the height and `rhs`: their sum.
    fn add(self, rhs: i32) -> (result: Dimensions<i32>) {
        Dimensions { w: self.w + rhs, h: self.h + rhs }
    }
}

impl vstd::std_specs::ops::AddSpecImpl<i32> for Dimensions<i32> {
    open spec fn obeys_add_spec() -> bool {
        true
    }

    open spec fn add_req(self, rhs: i32) -> bool {
        &&& i32::MIN <= combined(0, self.w as int, rhs as int) <= i32::MAX
        &&& i32::MIN <= combined(0, self.h as int, rhs as int) <= i32::MAX
    }

    open spec fn add_spec(self, rhs: i32) -> Dimensions<i32> {
        Dimensions {
            w: combined(0, self.w as int, rhs as int) as i32,
            h: combined(0, self.h as int, rhs as int) as i32,
        }
    }
}

impl core::ops::Add<(i32, i32)> for Dimensions<i32> {
    type Output = Dimensions<i32>;

    /// The width and the first of `rhs`, the height and the second: their sum.
    fn add(self, rhs: (i32, i32)) -> (result: Dimensions<i32>) {
        Dimensions { w: self.w + rhs.0, h: self.h + rhs.1 }
    }
}

impl vstd::std_specs::ops::AddSpecImpl<(i32, i32)> for Dimensions<i32> {
    open spec fn obeys_add_spec() -> bool {
        true
    }

    open spec fn add_req(self, rhs: (i32, i32)) -> bool {
        &&& i32::MIN <= combined(0, self.w as int, rhs.0 as int) <= i32::MAX
        &&& i32::MIN <= combined(0, self.h as int, rhs.1 as int) <= i32::MAX
    }

    open spec fn add_spec(self, rhs: (i32, i32)) -> Dimensions<i32> {
        Dimensions {
            w: combined(0, self.w as int, rhs.0 as int) as i32,
            h: combined(0, self.h as int, rhs.1 as int) as i32,
        }
    }
}

impl core::ops::Add<Dimensions<i32>> for Dimensions<i32> {
    type Output = Dimensions<i32>;

    /// The two widths and the two heights: their sum.
    fn add(self, rhs: Dimensions<i32>) -> (result: Dimensions<i32>) {
        Dimensions { w: self.w + rhs.w, h: self.h + rhs.h }
    }
}

impl vstd::std_specs::ops::AddSpecImpl<Dimensions<i32>> for Dimensions<i32> {
    open spec fn obeys_add_spec() -> bool {
        true
    }

    open spec fn add_req(self, rhs: Dimensions<i32>) -> bool {
        &&& i32::MIN <= combined(0, self.w as int, rhs.w as int) <= i32::MAX
        &&& i32::MIN <= combined(0, self.h as int, rhs.h as int) <= i32::MAX
    }

    open spec fn add_spec(self, rhs: Dimensions<i32>) -> Dimensions<i32> {
        Dimensions {
            w: combined(0, self.w as int, rhs.w as int) as i32,
            h: combined(0, self.h as int, rhs.h as int) as i32,
        }
    }
}

impl core::ops::Sub<u32> for Dimensions<u32> {
    type Output = Dimensions<u32>;

    /// Each of the width and the height and `rhs`: their difference.
    fn sub(self, rhs: u32) -> (result: Dimensions<u32>) {
        Dimensions { w: self.w - rhs, h: self.h - rhs }
    }
}

impl vstd::std_specs::ops::SubSpecImpl<u32> for Dimensions<u32> {
    open spec fn obeys_sub_spec() -> bool {
        true
    }

    open spec fn sub_req(self, rhs: u32) -> bool {
        &&& 0 <= combined(1, self.w as int, rhs as int) <= u32::MAX
        &&& 0 <= combined(1, self.h as int, rhs as int) <= u32::MAX
    }

    open spec fn sub_spec(self, rhs: u32) -> Dimensions<u32> {
        Dimensions {
            w: combined(1, self.w as int, rhs as int) as u32,
            h: combined(1, self.h as int, rhs as int) as u32,
        }
    }
}

impl core::ops::Sub<(u32, u32)> for Dimensions<u32> {
    type Output = Dimensions<u32>;

    /// The width and the first of `rhs`, the height and the second: their difference.
    fn sub(self, rhs: (u32, u32)) -> (result: Dimensions<u32>) {
        Dimensions { w: self.w - rhs.0, h: self.h - rhs.1 }
    }
}

impl vstd::std_specs::ops::SubSpecImpl<(u32, u32)> for Dimensions<u32> {
    open spec fn obeys_sub_spec() -> bool {
        true
    }

    open spec fn sub_req(self, rhs: (u32, u32)) -> bool {
        &&& 0 <= combined(1, self.w as int, rhs.0 as int) <= u32::MAX
        &&& 0 <= combined(1, self.h as int, rhs.1 as int) <= u32::MAX
    }

    open spec fn sub_spec(self, rhs: (u32, u32)) -> Dimensions<u32> {
        Dimensions {
            w: combined(1, self.w as int, rhs.0 as int) as u32,
            h: combined(1, self.h as int, rhs.1 as int) as u32,
        }
    }
}

impl core::ops::Sub<Dimensions<u32>> for Dimensions<u32> {
    type Output = Dimensions<u32>;

    /// The two widths and the two heights: their difference.
    fn sub(self, rhs: Dimensions<u32>) -> (result: Dimensions<u32>) {
        Dimensions { w: self.w - rhs.w, h: self.h - rhs.h }
    }
}

impl vstd::std_specs::ops::SubSpecImpl<Dimensions<u32>> for Dimensions<u32> {
    open spec fn obeys_sub_spec() -> bool {
        true
    }

    open spec fn sub_req(self, rhs: Dimensions<u32>) -> bool {
        &&& 0 <= combined(1, self.w as int, rhs.w as int) <= u32::MAX
        &&& 0 <= combined(1, self.h as int, rhs.h as int) <= u32::MAX
    }

    open spec fn sub_spec(self, rhs: Dimensions<u32>) -> Dimensions<u32> {
        Dimensions {
            w: combined(1, self.w as int, rhs.w as int) as u32,
            h: combined(1, self.h as int, rhs.h as int) as u32,
        }
    }
}

impl core::ops::Sub<i32> for Dimensions<i32> {
    type Output = Dimensions<i32>;

    /// Each of the width and the height and `rhs`: their difference.
    fn sub(self, rhs: i32) -> (result: Dimensions<i32>) {
        Dimensions { w: self.w - rhs, h: self.h - rhs }
    }
}

impl vstd::std_specs::ops::SubSpecImpl<i32> for Dimensions<i32> {
    open spec fn obeys_sub_spec() -> bool {
        true
    }

    open spec fn sub_req(self, rhs: i32) -> bool {
        &&& i32::MIN <= combined(1, self.w as int, rhs as int) <= i32::MAX
        &&& i32::MIN <= combined(1, self.h as int, rhs as int) <= i32::MAX
    }

    open spec fn sub_spec(self, rhs: i32) -> Dimensions<i32> {
        Dimensions {
            w: combined(1, self.w as int, rhs as int) as i32,
            h: combined(1, self.h as int, rhs as int) as i32,
        }
    }
}

impl core::ops::Sub<(i32, i32)> for Dimensions<i32> {
    type Output = Dimensions<i32>;

    /// The width and the first of `rhs`, the height and the second: their difference.
    fn sub(self, rhs: (i32, i32)) -> (result: Dimensions<i32>) {
        Dimensions { w: self.w - rhs.0, h: self.h - rhs.1 }
    }
}

impl vstd::std_specs::ops::SubSpecImpl<(i32, i32)> for Dimensions<i32> {
    open spec fn obeys_sub_spec() -> bool {
        true
    }

    open spec fn sub_req(self, rhs: (i32, i32)) -> bool {
        &&& i32::MIN <= combined(1, self.w as int, rhs.0 as int) <= i32::MAX
        &&& i32::MIN <= combined(1, self.h as int, rhs.1 as int) <= i32::MAX
    }

    open spec fn sub_spec(self, rhs: (i32, i32)) -> Dimensions<i32> {
        Dimensions {
            w: combined(1, self.w as int, rhs.0 as int) as i32,
            h: combined(1, self.h as int, rhs.1 as int) as i32,
        }
    }
}

impl core::ops::Sub<Dimensions<i32>> for Dimensions<i32> {
    type Output = Dimensions<i32>;

    /// The two widths and the two heights: their difference.
    fn sub(self, rhs: Dimensions<i32>) -> (result: Dimensions<i32>) {
        Dimensions { w: self.w - rhs.w, h: self.h - rhs.h }
    }
}

impl vstd::std_specs::ops::SubSpecImpl<Dimensions<i32>> for Dimensions<i32> {
    open spec fn obeys_sub_spec() -> bool {
        true
    }

    open spec fn sub_req(self, rhs: Dimensions<i32>) -> bool {
        &&& i32::MIN <= combined(1, self.w as int, rhs.w as int) <= i32::MAX
        &&& i32::MIN <= combined(1, self.h as int, rhs.h as int) <= i32::MAX
    }

    open spec fn sub_spec(self, rhs: Dimensions<i32>) -> Dimensions<i32> {
        Dimensions {
            w: combined(1, self.w as int, rhs.w as int) as i32,
            h: combined(1, self.h as int, rhs.h as int) as i32,
        }
    }
}

impl core::ops::Mul<u32> for Dimensions<u32> {
    type Output = Dimensions<u32>;

    /// Each of the width and the height and `rhs`: their product.
    fn mul(self, rhs: u32) -> (result: Dimensions<u32>) {
        Dimensions { w: self.w * rhs, h: self.h * rhs }
    }
}

impl vstd::std_specs::ops::MulSpecImpl<u32> for Dimensions<u32> {
    open spec fn obeys_mul_spec() -> bool {
        true
    }

    open spec fn mul_req(self, rhs: u32) -> bool {
        &&& 0 <= combined(2, self.w as int, rhs as int) <= u32::MAX
        &&& 0 <= combined(2, self.h as int, rhs as int) <= u32::MAX
    }

    open spec fn mul_spec(self, rhs: u32) -> Dimensions<u32> {
        Dimensions {
            w: combined(2, self.w as int, rhs as int) as u32,
            h: combined(2, self.h as int, rhs as int) as u32,
        }
    }
}

impl core::ops::Mul<(u32, u32)> for Dimensions<u32> {
    type Output = Dimensions<u32>;

    /// The width and the first of `rhs`, the height and the second: their product.
    fn mul(self, rhs: (u32, u32)) -> (result: Dimensions<u32>) {
        Dimensions { w: self.w * rhs.0, h: self.h * rhs.1 }
    }
}

impl vstd::std_specs::ops::MulSpecImpl<(u32, u32)> for Dimensions<u32> {
    open spec fn obeys_mul_spec() -> bool {
        true
    }

    open spec fn mul_req(self, rhs: (u32, u32)) -> bool {
        &&& 0 <= combined(2, self.w as int, rhs.0 as int) <= u32::MAX
        &&& 0 <= combined(2, self.h as int, rhs.1 as int) <= u32::MAX
    }

    open spec fn mul_spec(self, rhs: (u32, u32)) -> Dimensions<u32> {
        Dimensions {
            w: combined(2, self.w as int, rhs.0 as int) as u32,
            h: combined(2, self.h as int, rhs.1 as int) as u32,
        }
    }
}

impl core::ops::Mul<Dimensions<u32>> for Dimensions<u32> {
    type Output = Dimensions<u32>;

    /// The two widths and the two heights: their product.
    fn mul(self, rhs: Dimensions<u32>) -> (result: Dimensions<u32>) {
        Dimensions { w: self.w * rhs.w, h: self.h * rhs.h }
    }
}

impl vstd::std_specs::ops::MulSpecImpl<Dimensions<u32>> for Dimensions<u32> {
    open spec fn obeys_mul_spec() -> bool {
        true
    }

    open spec fn mul_req(self, rhs: Dimensions<u32>) -> bool {
        &&& 0 <= combined(2, self.w as int, rhs.w as int) <= u32::MAX
        &&& 0 <= combined(2, self.h as int, rhs.h as int) <= u32::MAX
    }

    open spec fn mul_spec(self, rhs: Dimensions<u32>) -> Dimensions<u32> {
        Dimensions {
            w: combined(2, self.w as int, rhs.w as int) as u32,
            h: combined(2, self.h as int, rhs.h as int) as u32,
        }
    }
}

impl core::ops::Mul<i32> for Dimensions<i32> {
    type Output = Dimensions<i32>;

    /// Each of the width and the height and `rhs`: their product.
    fn mul(self, rhs: i32) -> (result: Dimensions<i32>) {
        Dimensions { w: self.w * rhs, h: self.h * rhs }
    }
}

impl vstd::std_specs::ops::MulSpecImpl<i32> for Dimensions<i32> {
    open spec fn obeys_mul_spec() -> bool {
        true
    }

    open spec fn mul_req(self, rhs: i32) -> bool {
        &&& i32::MIN <= combined(2, self.w as int, rhs as int) <= i32::MAX
        &&& i32::MIN <= combined(2, self.h as int, rhs as int) <= i32::MAX
    }

    open spec fn mul_spec(self, rhs: i32) -> Dimensions<i32> {
        Dimensions {
            w: combined(2, self.w as int, rhs as int) as i32,
            h: combined(2, self.h as int, rhs as int) as i32,
        }
    }
}

impl core::ops::Mul<(i32, i32)> for Dimensions<i32> {
    type Output = Dimensions<i32>;

    /// The width and the first of `rhs`, the height and the second: their product.
    fn mul(self, rhs: (i32, i32)) -> (result: Dimensions<i32>) {
        Dimensions { w: self.w * rhs.0, h: self.h * rhs.1 }
    }
}

impl vstd::std_specs::ops::MulSpecImpl<(i32, i32)> for Dimensions<i32> {
    open spec fn obeys_mul_spec() -> bool {
        true
    }

    open spec fn mul_req(self, rhs: (i32, i32)) -> bool {
        &&& i32::MIN <= combined(2, self.w as int, rhs.0 as int) <= i32::MAX
        &&& i32::MIN <= combined(2, self.h as int, rhs.1 as int) <= i32::MAX
    }

    open spec fn mul_spec(self, rhs: (i32, i32)) -> Dimensions<i32> {
        Dimensions {
            w: combined(2, self.w as int, rhs.0 as int) as i32,
            h: combined(2, self.h as int, rhs.1 as int) as i32,
        }
    }
}

impl core::ops::Mul<Dimensions<i32>> for Dimensions<i32> {
    type Output = Dimensions<i32>;

    /// The two widths and the two heights: their product.
    fn mul(self, rhs: Dimensions<i32>) -> (result: Dimensions<i32>) {
        Dimensions { w: self.w * rhs.w, h: self.h * rhs.h }
    }
}

impl vstd::std_specs::ops::MulSpecImpl<Dimensions<i32>> for Dimensions<i32> {
    open spec fn obeys_mul_spec() -> bool {
        true
    }

    open spec fn mul_req(self, rhs: Dimensions<i32>) -> bool {
        &&& i32::MIN <= combined(2, self.w as int, rhs.w as int) <= i32::MAX
        &&& i32::MIN <= combined(2, self.h as int, rhs.h as int) <= i32::MAX
    }

    open spec fn mul_spec(self, rhs: Dimensions<i32>) -> Dimensions<i32> {
        Dimensions {
            w: combined(2, self.w as int, rhs.w as int) as i32,
            h: combined(2, self.h as int, rhs.h as int) as i32,
        }
    }
}

impl core::ops::Div<u32> for Dimensions<u32> {
    type Output = Dimensions<u32>;

    /// Each of the width and the height and `rhs`: their quotient.
    fn div(self, rhs: u32) -> (result: Dimensions<u32>) {
        Dimensions { w: self.w / rhs, h: self.h / rhs }
    }
}

impl vstd::std_specs::ops::DivSpecImpl<u32> for Dimensions<u32> {
    open spec fn obeys_div_spec() -> bool {
        true
    }

    open spec fn div_req(self, rhs: u32) -> bool {
        &&& rhs != 0
        &&& rhs != 0
    }

    open spec fn div_spec(self, rhs: u32) -> Dimensions<u32> {
        Dimensions {
            w: combined(3, self.w as int, rhs as int) as u32,
            h: combined(3, self.h as int, rhs as int) as u32,
        }
    }
}

impl core::ops::Div<(u32, u32)> for Dimensions<u32> {
    type Output = Dimensions<u32>;

    /// The width and the first of `rhs`, the height and the second: their quotient.
    fn div(self, rhs: (u32, u32)) -> (result: Dimensions<u32>) {
        Dimensions { w: self.w / rhs.0, h: self.h / rhs.1 }
    }
}

impl vstd::std_specs::ops::DivSpecImpl<(u32, u32)> for Dimensions<u32> {
    open spec fn obeys_div_spec() -> bool {
        true
    }

    open spec fn div_req(self, rhs: (u32, u32)) -> bool {
        &&& rhs.0 != 0
        &&& rhs.1 != 0
    }

    open spec fn div_spec(self, rhs: (u32, u32)) -> Dimensions<u32> {
        Dimensions {
            w: combined(3, self.w as int, rhs.0 as int) as u32,
            h: combined(3, self.h as int, rhs.1 as int) as u32,
        }
    }
}

impl core::ops::Div<Dimensions<u32>> for Dimensions<u32> {
    type Output = Dimensions<u32>;

    /// The two widths and the two heights: their quotient.
    fn div(self, rhs: Dimensions<u32>) -> (result: Dimensions<u32>) {
        Dimensions { w: self.w / rhs.w, h: self.h / rhs.h }
    }
}

impl vstd::std_specs::ops::DivSpecImpl<Dimensions<u32>> for Dimensions<u32> {
    open spec fn obeys_div_spec() -> bool {
        true
    }

    open spec fn div_req(self, rhs: Dimensions<u32>) -> bool {
        &&& rhs.w != 0
        &&& rhs.h != 0
    }

    open spec fn div_spec(self, rhs: Dimensions<u32>) -> Dimensions<u32> {
        Dimensions {
            w: combined(3, self.w as int, rhs.w as int) as u32,
            h: combined(3, self.h as int, rhs.h as int) as u32,
        }
    }
}

impl core::ops::Div<i32> for Dimensions<i32> {
    type Output = Dimensions<i32>;

    /// Each of the width and the height and `rhs`: their quotient.
    fn div(self, rhs: i32) -> (result: Dimensions<i32>) {
        Dimensions { w: self.w / rhs, h: self.h / rhs }
    }
}

impl vstd::std_specs::ops::DivSpecImpl<i32> for Dimensions<i32> {
    open spec fn obeys_div_spec() -> bool {
        true
    }

    open spec fn div_req(self, rhs: i32) -> bool {
        &&& rhs != 0 && !(self.w == i32::MIN && rhs == -1)
        &&& rhs != 0 && !(self.h == i32::MIN && rhs == -1)
    }

    open spec fn div_spec(self, rhs: i32) -> Dimensions<i32> {
        Dimensions {
            w: combined(3, self.w as int, rhs as int) as i32,
            h: combined(3, self.h as int, rhs as int) as i32,
        }
    }
}

impl core::ops::Div<(i32, i32)> for Dimensions<i32> {
    type Output = Dimensions<i32>;

    /// The width and the first of `rhs`, the height and the second: their quotient.
    fn div(self, rhs: (i32, i32)) -> (result: Dimensions<i32>) {
        Dimensions { w: self.w / rhs.0, h: self.h / rhs.1 }
    }
}

impl vstd::std_specs::ops::DivSpecImpl<(i32, i32)> for Dimensions<i32> {
    open spec fn obeys_div_spec() -> bool {
        true
    }

    open spec fn div_req(self, rhs: (i32, i32)) -> bool {
        &&& rhs.0 != 0 && !(self.w == i32::MIN && rhs.0 == -1)
        &&& rhs.1 != 0 && !(self.h == i32::MIN && rhs.1 == -1)
    }

    open spec fn div_spec(self, rhs: (i32, i32)) -> Dimensions<i32> {
        Dimensions {
            w: combined(3, self.w as int, rhs.0 as int) as i32,
            h: combined(3, self.h as int, rhs.1 as int) as i32,
        }
    }
}

impl core::ops::Div<Dimensions<i32>> for Dimensions<i32> {
    type Output = Dimensions<i32>;

    /// The two widths and the two heights: their quotient.
    fn div(self, rhs: Dimensions<i32>) -> (result: Dimensions<i32>) {
        Dimensions { w: self.w / rhs.w, h: self.h / rhs.h }
    }
}

impl vstd::std_specs::ops::DivSpecImpl<Dimensions<i32>> for Dimensions<i32> {
    open spec fn obeys_div_spec() -> bool {
        true
    }

    open spec fn div_req(self, rhs: Dimensions<i32>) -> bool {
        &&& rhs.w != 0 && !(self.w == i32::MIN && rhs.w == -1)
        &&& rhs.h != 0 && !(self.h == i32::MIN && rhs.h == -1)
    }

    open spec fn div_spec(self, rhs: Dimensions<i32>) -> Dimensions<i32> {
        Dimensions {
            w: combined(3, self.w as int, rhs.w as int) as i32,
            h: combined(3, self.h as int, rhs.h as int) as i32,
        }
    }
}

} // verus!
