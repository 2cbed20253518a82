//! Velocities that point from one place to another.
//!
//! A direction is measured in grains of [`AIM_GRAIN`] position units, about
//! thirteen millionths of a pixel. Two places less than a grain apart on both
//! axes count as the same place, and nothing points from a place to itself:
//! the velocity is then zero.

use vstd::prelude::*;
use crate::coords::{Point, Vector};

verus! {

/// Position units in one grain of direction.
pub const AIM_GRAIN: i64 = 131_072;

/// The largest natural number whose square is at most `n`.
pub open spec fn floor_sqrt(n: nat) -> nat
    decreases n,
{
    if n == 0 {
        0
    } else {
        let r = floor_sqrt((n - 1) as nat);
        if (r + 1) * (r + 1) <= n {
            r + 1
        } else {
            r
        }
    }
}

/// `floor_sqrt(n)` is a root of `n` rounded down: its square is at most `n`,
/// and the square of its successor is more.
pub proof fn lemma_floor_sqrt_bounds(n: nat)
    ensures
        floor_sqrt(n) * floor_sqrt(n) <= n,
        n < (floor_sqrt(n) + 1) * (floor_sqrt(n) + 1),
    decreases n,
{
    let s = floor_sqrt(n);
    if n == 0 {
        assert(s * s == 0 && (s + 1) * (s + 1) == 1) by (nonlinear_arith)
            requires
                s == 0,
        ;
    } else {
        let r = floor_sqrt((n - 1) as nat);
        lemma_floor_sqrt_bounds((n - 1) as nat);
        if (r + 1) * (r + 1) <= n {
            assert(s * s <= n && n < (s + 1) * (s + 1)) by (nonlinear_arith)
                requires
                    s == r + 1,
                    (r + 1) * (r + 1) <= n,
                    n - 1 < (r + 1) * (r + 1),
            ;
        }
    }
}

/// Only one number has the two properties of `lemma_floor_sqrt_bounds`.
pub proof fn lemma_floor_sqrt_unique(n: nat, r: nat)
    requires
        r * r <= n,
        n < (r + 1) * (r + 1),
    ensures
        r == floor_sqrt(n),
{
    let s = floor_sqrt(n);
    lemma_floor_sqrt_bounds(n);
    if r < s {
        assert((r + 1) * (r + 1) <= s * s) by (nonlinear_arith)
            requires
                r + 1 <= s,
        ;
    } else if s < r {
        assert((s + 1) * (s + 1) <= r * r) by (nonlinear_arith)
            requires
                s + 1 <= r,
        ;
    }
}

/// A length in whole grains, rounded toward zero.
pub open spec fn grains(d: int) -> int {
    if d >= 0 {
        d / (AIM_GRAIN as int)
    } else {
        -((-d) / (AIM_GRAIN as int))
    }
}

/// One component of the velocity of magnitude `speed` along the direction
/// `(e, f)`, namely the component along `e`: `speed * e / sqrt(e*e + f*f)`,
/// rounded toward zero.
pub open spec fn aim_component(e: int, f: int, speed: int) -> int {
    if e == 0 && f == 0 {
        0
    } else {
        let a = floor_sqrt(((speed * speed * (e * e)) / (e * e + f * f)) as nat) as int;
        if e >= 0 {
            a
        } else {
            -a
        }
    }
}

/// The velocity of magnitude `speed` that points from `from` to `to`, each
/// component rounded toward zero; zero where the two are less than a grain
/// apart.
pub open spec fn spec_aim(from: Point<i64>, to: Point<i64>, speed: u16) -> Vector {
    let e = grains(to.x - from.x);
    let f = grains(to.y - from.y);
    Vector {
        x: aim_component(e, f, speed as int) as i64,
        y: aim_component(f, e, speed as int) as i64,
    }
}

/// The root of `n`, rounded down.
fn root(n: u64) -> (r: u64)
    requires
        n < 0x1_0000_0000,
    ensures
        r == floor_sqrt(n as nat),
        r < 0x1_0000,
{
    let mut lo: u64 = 0;
    let mut hi: u64 = 0x1_0000;
    while hi - lo > 1
        invariant
            lo < hi <= 0x1_0000,
            lo * lo <= n,
            n < hi * hi,
        decreases hi - lo,
    {
        let mid: u64 = lo + (hi - lo) / 2;
        assert(mid * mid <= 0x1_0000 * 0x1_0000) by (nonlinear_arith)
            requires
                mid <= 0x1_0000,
        ;
        if mid * mid <= n {
            lo = mid;
        } else {
            hi = mid;
        }
    }
    proof {
        lemma_floor_sqrt_unique(n as nat, lo as nat);
    }
    lo
}

/// The size of a length in grains.
fn grain_count(d: i128) -> (g: u128)
    requires
        -0x1_0000_0000_0000_0000 < d < 0x1_0000_0000_0000_0000,
    ensures
        g == if grains(d as int) >= 0 { grains(d as int) } else { -grains(d as int) },
        g < 0x8000_0000_0000,
{
    if d >= 0 {
        (d / (AIM_GRAIN as i128)) as u128
    } else {
        ((-d) / (AIM_GRAIN as i128)) as u128
    }
}

/// The size of one component of the aimed velocity.
fn component_size(e: u128, f: u128, speed: u16) -> (a: i64)
    requires
        e < 0x8000_0000_0000,
        f < 0x8000_0000_0000,
        e != 0 || f != 0,
    ensures
        a == floor_sqrt(((speed * speed * (e * e)) / (e * e + f * f)) as nat),
        0 <= a < 0x1_0000,
        e == 0 ==> a == 0,
{
    let s: u128 = speed as u128;
    assert(s * s <= 0xffff * 0xffff) by (nonlinear_arith)
        requires
            0 <= s <= 0xffff,
    ;
    assert(e * e <= 0x7fff_ffff_ffff * 0x7fff_ffff_ffff) by (nonlinear_arith)
        requires
            0 <= e <= 0x7fff_ffff_ffff,
    ;
    assert(f * f <= 0x7fff_ffff_ffff * 0x7fff_ffff_ffff) by (nonlinear_arith)
        requires
            0 <= f <= 0x7fff_ffff_ffff,
    ;
    assert(e * e + f * f > 0) by (nonlinear_arith)
        requires
            e >= 0,
            f >= 0,
            e != 0 || f != 0,
    ;
    let s2: u128 = s * s;
    let e2: u128 = e * e;
    let f2: u128 = f * f;
    assert(s2 * e2 <= (0xffff * 0xffff) * (0x7fff_ffff_ffff * 0x7fff_ffff_ffff))
        by (nonlinear_arith)
        requires
            0 <= s2 <= 0xffff * 0xffff,
            0 <= e2 <= 0x7fff_ffff_ffff * 0x7fff_ffff_ffff,
    ;
    let q: u128 = (s2 * e2) / (e2 + f2);
    assert(q <= s2) by (nonlinear_arith)
        requires
            q == (s2 * e2) / ((e2 + f2) as int),
            e2 >= 0,
            f2 >= 0,
            e2 + f2 > 0,
            s2 >= 0,
    ;
    assert(speed * speed * (e * e) == s2 * e2) by (nonlinear_arith)
        requires
            s2 == speed * speed,
            e2 == e * e,
    ;
    assert(e == 0 ==> q == 0) by (nonlinear_arith)
        requires
            q == (s2 * e2) / ((e2 + f2) as int),
            e2 == e * e,
            e2 + f2 > 0,
    ;
    root(q as u64) as i64
}

/// The velocity of magnitude `speed` that points from `from` to `to`.
#[verifier::when_used_as_spec(spec_aim)]
pub fn aim(from: Point<i64>, to: Point<i64>, speed: u16) -> (v: Vector)
    ensures
        v == spec_aim(from, to, speed),
{
    let dx: i128 = to.x as i128 - from.x as i128;
    let dy: i128 = to.y as i128 - from.y as i128;
    let e: u128 = grain_count(dx);
    let f: u128 = grain_count(dy);
    if e == 0 && f == 0 {
        return Vector { x: 0, y: 0 };
    }
    let ax: i64 = component_size(e, f, speed);
    let ay: i64 = component_size(f, e, speed);
    let v = Vector { x: if dx >= 0 { ax } else { -ax }, y: if dy >= 0 { ay } else { -ay } };
    proof {
        let ge = grains(dx as int);
        let gf = grains(dy as int);
        assert(ge * ge == e * e) by (nonlinear_arith)
            requires
                e == ge || e == -ge,
        ;
        assert(gf * gf == f * f) by (nonlinear_arith)
            requires
                f == gf || f == -gf,
        ;
    }
    v
}

/// No component of an aimed velocity is larger than its speed.
pub proof fn lemma_aim_is_slow(from: Point<i64>, to: Point<i64>, speed: u16)
    ensures
        -(speed as int) <= spec_aim(from, to, speed).x <= speed,
        -(speed as int) <= spec_aim(from, to, speed).y <= speed,
{
    let e = grains(to.x - from.x);
    let f = grains(to.y - from.y);
    lemma_component_is_slow(e, f, speed as int);
    lemma_component_is_slow(f, e, speed as int);
}

/// The size of a component is at most the speed.
proof fn lemma_component_is_slow(e: int, f: int, speed: int)
    requires
        0 <= speed,
    ensures
        -speed <= aim_component(e, f, speed) <= speed,
{
    if e != 0 || f != 0 {
        let e2 = e * e;
        let f2 = f * f;
        let s2 = speed * speed;
        assert(e2 >= 0 && f2 >= 0 && e2 + f2 > 0 && s2 >= 0) by (nonlinear_arith)
            requires
                e2 == e * e,
                f2 == f * f,
                s2 == speed * speed,
                e != 0 || f != 0,
        ;
        let q = (s2 * e2) / (e2 + f2);
        assert(0 <= q <= s2) by (nonlinear_arith)
            requires
                q == (s2 * e2) / (e2 + f2),
                e2 >= 0,
                f2 >= 0,
                e2 + f2 > 0,
                s2 >= 0,
        ;
        let a = floor_sqrt(q as nat);
        lemma_floor_sqrt_bounds(q as nat);
        assert(a <= speed) by (nonlinear_arith)
            requires
                a * a <= q,
                q <= s2,
                s2 == speed * speed,
                a >= 0,
                speed >= 0,
        ;
    }
}

/// An aimed velocity is never faster than its speed.
pub proof fn lemma_aim_within_speed(from: Point<i64>, to: Point<i64>, speed: u16)
    ensures
        spec_aim(from, to, speed).x * spec_aim(from, to, speed).x + spec_aim(from, to, speed).y
            * spec_aim(from, to, speed).y <= speed * speed,
{
    let e = grains(to.x - from.x);
    let f = grains(to.y - from.y);
    let s = speed as int;
    lemma_component_is_slow(e, f, s);
    lemma_component_is_slow(f, e, s);
    let x = aim_component(e, f, s);
    let y = aim_component(f, e, s);
    if e != 0 || f != 0 {
        let e2 = e * e;
        let f2 = f * f;
        let s2 = s * s;
        let d = e2 + f2;
        assert(e2 >= 0 && f2 >= 0 && d > 0 && s2 >= 0) by (nonlinear_arith)
            requires
                e2 == e * e,
                f2 == f * f,
                d == e2 + f2,
                s2 == s * s,
                e != 0 || f != 0,
        ;
        let qx = (s2 * e2) / d;
        let qy = (s2 * f2) / d;
        assert(qx + qy <= s2 && qx >= 0 && qy >= 0) by (nonlinear_arith)
            requires
                qx == (s2 * e2) / d,
                qy == (s2 * f2) / d,
                d == e2 + f2,
                e2 >= 0,
                f2 >= 0,
                d > 0,
                s2 >= 0,
        ;
        lemma_floor_sqrt_bounds(qx as nat);
        lemma_floor_sqrt_bounds(qy as nat);
        let ax = floor_sqrt(qx as nat) as int;
        let ay = floor_sqrt(qy as nat) as int;
        assert(f2 + e2 == d);
        assert(x * x == ax * ax) by (nonlinear_arith)
            requires
                x == ax || x == -ax,
        ;
        assert(y * y == ay * ay) by (nonlinear_arith)
            requires
                y == ay || y == -ay,
        ;
        assert(x * x + y * y <= s * s);
    } else {
        assert(x * x + y * y <= s * s) by (nonlinear_arith)
            requires
                x == 0,
                y == 0,
        ;
    }
    assert(spec_aim(from, to, speed).x == x && spec_aim(from, to, speed).y == y);
}

/// Nothing points from a place to itself.
pub proof fn lemma_aim_at_self(at: Point<i64>, speed: u16)
    ensures
        spec_aim(at, at, speed) == Vector::spec_zero(),
{
}

} // verus!
