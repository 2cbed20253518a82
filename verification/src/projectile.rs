//! Projectiles: what the player and the enemies shoot at each other.

use vstd::prelude::*;
use crate::coords::{Dimensions, Point, Rect, Vector};
use crate::time::Duration;

verus! {

/// The side of the square box of every projectile: ten pixels.
pub const PROJ_SIDE: i64 = 100_000_000_000;

/// The speed of every projectile: ten pixels per reference tick.
pub const PROJ_SPEED: u16 = 6000;

/// Who shot a projectile, and how.
#[derive(Clone, Copy, Debug, PartialEq, Eq, Structural)]
pub enum ProjType {
    /// Shot straight down by an enemy.
    Basic,
    /// Shot at the player by an enemy.
    Aimed,
    /// Shot straight up by the player.
    PlayerShoot,
}

/// A projectile in flight. It keeps its velocity for as long as it exists.
#[derive(Clone, Copy, Debug, PartialEq, Eq, Structural)]
pub struct Projectile {
    pub pos: Point<i64>,
    pub vel: Vector,
    pub variant: ProjType,
}

/// The box of a projectile.
pub open spec fn spec_proj_size() -> Dimensions<i64> {
    Dimensions { w: PROJ_SIDE, h: PROJ_SIDE }
}

/// The box of a projectile.
#[verifier::when_used_as_spec(spec_proj_size)]
pub fn proj_size() -> (size: Dimensions<i64>)
    ensures
        size == spec_proj_size(),
{
    Dimensions { w: PROJ_SIDE, h: PROJ_SIDE }
}

impl Projectile {
    /// The hit points that the projectile takes from what it hits.
    pub open spec fn spec_damage(&self) -> u32 {
        match self.variant {
            ProjType::Basic => 1,
            ProjType::Aimed => 1,
            ProjType::PlayerShoot => 2,
        }
    }

    /// Whether the player shot the projectile.
    pub open spec fn spec_is_player_owned(&self) -> bool {
        self.variant == ProjType::PlayerShoot
    }

    /// The projectile after flying for `span`.
    pub open spec fn spec_advanced(self, span: Duration) -> Projectile {
        Projectile { pos: self.pos.spec_moved(self.vel, span), ..self }
    }

    /// The hit points that the projectile takes from what it hits.
    #[verifier::when_used_as_spec(spec_damage)]
    pub fn damage(&self) -> (points: u32)
        ensures
            points == self.spec_damage(),
    {
        match self.variant {
            ProjType::Basic => 1,
            ProjType::Aimed => 1,
            ProjType::PlayerShoot => 2,
        }
    }

    /// Whether the player shot the projectile.
    #[verifier::when_used_as_spec(spec_is_player_owned)]
    pub fn is_player_owned(&self) -> (owned: bool)
        ensures
            owned == self.spec_is_player_owned(),
    {
        match self.variant {
            ProjType::PlayerShoot => true,
            _ => false,
        }
    }

    /// Lets the projectile fly for `span`.
    pub fn advance(&mut self, span: Duration)
        ensures
            *final(self) == old(self).spec_advanced(span),
    {
        self.pos = self.pos.moved(self.vel, span);
    }
}

/// The sum of some spans of time, in nanoseconds.
pub open spec fn total_nanos(spans: Seq<Duration>) -> int
    decreases spans.len(),
{
    if spans.len() == 0 {
        0
    } else {
        total_nanos(spans.drop_last()) + spans.last().nanos
    }
}

/// The projectile after one flight for each of `spans`, in their order.
pub open spec fn flown(start: Projectile, spans: Seq<Duration>) -> Projectile
    decreases spans.len(),
{
    if spans.len() == 0 {
        start
    } else {
        flown(start, spans.drop_last()).spec_advanced(spans.last())
    }
}

/// Whether the projectile is inside the arena of size `arena` after each of
/// the flights of `spans`, so that no update removes it.
pub open spec fn stays_inside(start: Projectile, spans: Seq<Duration>, arena: Dimensions<i64>) -> bool
    decreases spans.len(),
{
    if spans.len() == 0 {
        true
    } else {
        &&& stays_inside(start, spans.drop_last(), arena)
        &&& arena.spec_into_rect().spec_contains(flown(start, spans).pos)
    }
}

/// Motion is linear and does not drift: a projectile that stays inside the
/// arena is, after any number of updates, where it started plus its velocity
/// times the whole time that passed. Its velocity never changes.
pub proof fn lemma_flight_is_linear(start: Projectile, spans: Seq<Duration>, arena: Dimensions<i64>)
    requires
        spans.len() > 0,
        stays_inside(start, spans, arena),
    ensures
        flown(start, spans).pos.x == start.pos.x + start.vel.x * total_nanos(spans),
        flown(start, spans).pos.y == start.pos.y + start.vel.y * total_nanos(spans),
        flown(start, spans).vel == start.vel,
        flown(start, spans).variant == start.variant,
    decreases spans.len(),
{
    let before = spans.drop_last();
    let span = spans.last();
    lemma_flight_keeps_velocity(start, before);
    if before.len() > 0 {
        lemma_flight_is_linear(start, before, arena);
    }
    let prev = flown(start, before);
    let t = total_nanos(before);
    assert(prev.pos.x == start.pos.x + start.vel.x * t && prev.pos.y == start.pos.y + start.vel.y
        * t) by {
        if before.len() == 0 {
            assert(start.vel.x * 0 == 0 && start.vel.y * 0 == 0) by (nonlinear_arith);
        }
    }
    assert(start.vel.x * (t + span.nanos) == start.vel.x * t + start.vel.x * span.nanos)
        by (nonlinear_arith);
    assert(start.vel.y * (t + span.nanos) == start.vel.y * t + start.vel.y * span.nanos)
        by (nonlinear_arith);
}

/// A flight changes neither the velocity nor the kind of a projectile.
pub proof fn lemma_flight_keeps_velocity(start: Projectile, spans: Seq<Duration>)
    ensures
        flown(start, spans).vel == start.vel,
        flown(start, spans).variant == start.variant,
    decreases spans.len(),
{
    if spans.len() > 0 {
        lemma_flight_keeps_velocity(start, spans.drop_last());
    }
}

} // verus!
