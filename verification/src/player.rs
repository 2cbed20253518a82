//! The player: moved by the keys, kept inside the arena, shooting upward.

use vstd::prelude::*;
use crate::cooldown::Cooldown;
use crate::coords::{half, half_of, CenteredBox, Dimensions, Point, Rect, Vector};
use crate::game::Inputs;
use crate::projectile::{ProjType, Projectile, PROJ_SPEED};
use crate::time::{Duration, Timestamp};

verus! {

/// The speed of the player on each axis: five pixels per reference tick.
pub const PLAYER_SPEED: i64 = 3000;

/// Where the player starts: 75 pixels from the left edge.
pub const PLAYER_START_X: i64 = 750_000_000_000;

/// Where the player starts: 200 pixels from the upper edge.
pub const PLAYER_START_Y: i64 = 2_000_000_000_000;

/// The side of the square that is drawn for the player: 48 pixels.
pub const PLAYER_SIDE: i64 = 480_000_000_000;

/// The side of the square in which the player can be hit: 12 pixels.
pub const PLAYER_HITBOX_SIDE: i64 = 120_000_000_000;

/// The hit points of the player at the start of a level.
pub const PLAYER_MAX_HP: u32 = 5;

/// For how long nothing can hit the player after a hit: two seconds.
pub const PLAYER_IMMUNITY_NANOS: u64 = 2_000_000_000;

/// The time between two shots of the player: 15 reference ticks.
pub const PLAYER_FIRE_NANOS: u64 = 250_000_000;

/// The player.
#[derive(Clone, Copy, Debug, PartialEq, Eq, Structural)]
pub struct Player {
    pub pos: Point<i64>,
    pub vel: Vector,
    /// The size at which the player is drawn.
    pub size: Dimensions<i64>,
    /// The box in which projectiles hit the player; its center follows `pos`.
    pub hitbox: CenteredBox,
    pub hp: u32,
    /// Runs from each hit; until it is over nothing hits the player.
    pub immunity: Cooldown,
    /// Runs from each shot; until it is over the player cannot shoot.
    pub new_shoot: Cooldown,
}

/// The velocity that the keys ask for: on each axis the speed of the player
/// toward the key that is down, nothing if both or neither are. Moving along
/// both axes at once is faster than along one.
pub open spec fn input_velocity(inputs: Inputs) -> Vector {
    Vector {
        x: if inputs.right && !inputs.left {
            PLAYER_SPEED
        } else if inputs.left && !inputs.right {
            (-PLAYER_SPEED) as i64
        } else {
            0
        },
        y: if inputs.down && !inputs.up {
            PLAYER_SPEED
        } else if inputs.up && !inputs.down {
            (-PLAYER_SPEED) as i64
        } else {
            0
        },
    }
}

/// Where a coordinate of the player is after a step of `step` units in an
/// arena that is `extent` long on that axis: at the end of the step if that
/// is in the arena, its edges included, and where it was if not.
pub open spec fn stepped_within(coord: i64, step: int, extent: i64) -> i64 {
    if 0 <= coord + step <= extent {
        (coord + step) as i64
    } else {
        coord
    }
}

impl Player {
    /// The player at the start of a level.
    pub open spec fn spec_new() -> Player {
        let pos = Point { x: PLAYER_START_X, y: PLAYER_START_Y };
        Player {
            pos,
            vel: Vector::spec_zero(),
            size: Dimensions { w: PLAYER_SIDE, h: PLAYER_SIDE },
            hitbox: CenteredBox {
                center: pos,
                dims: Dimensions { w: PLAYER_HITBOX_SIDE, h: PLAYER_HITBOX_SIDE },
            },
            hp: PLAYER_MAX_HP,
            immunity: Cooldown::spec_with_duration(Duration { nanos: PLAYER_IMMUNITY_NANOS }),
            new_shoot: Cooldown::spec_with_duration(Duration { nanos: PLAYER_FIRE_NANOS }),
        }
    }

    /// Whether the player can be hit at `now`.
    pub open spec fn spec_immunity_over(&self, now: Timestamp) -> bool {
        self.immunity.spec_is_over(now)
    }

    /// Whether the player is in the arena, its edges included.
    pub open spec fn within(&self, bounds: Rect<i64>) -> bool {
        &&& 0 <= self.pos.x <= bounds.dims.w
        &&& 0 <= self.pos.y <= bounds.dims.h
    }

    /// The player after an update of `dt` with the given keys down.
    ///
    /// The player takes the velocity that the keys ask for. If that is not
    /// zero, each coordinate takes its step unless the step would leave the
    /// arena, whatever the other coordinate does, and the hit box follows.
    pub open spec fn spec_update_pos(self, inputs: Inputs, bounds: Rect<i64>, dt: Duration) -> Player {
        let vel = input_velocity(inputs);
        if vel == Vector::spec_zero() {
            Player { vel, ..self }
        } else {
            let pos = Point {
                x: stepped_within(self.pos.x, vel.x * dt.nanos, bounds.dims.w),
                y: stepped_within(self.pos.y, vel.y * dt.nanos, bounds.dims.h),
            };
            Player { vel, pos, hitbox: CenteredBox { center: pos, dims: self.hitbox.dims }, ..self }
        }
    }

    /// Whether the player shoots at `now`: the key is down and the cooldown
    /// is over.
    pub open spec fn spec_fires(&self, shoot: bool, now: Timestamp) -> bool {
        shoot && self.new_shoot.spec_is_over(now)
    }

    /// The projectile that the player shoots: it appears above the center of
    /// the player, by half the height, and flies straight up.
    pub open spec fn spec_shot(&self) -> Projectile {
        Projectile {
            pos: self.pos.spec_lowered(-half(self.size.h as int)),
            vel: Vector { x: 0, y: (-(PROJ_SPEED as int)) as i64 },
            variant: ProjType::PlayerShoot,
        }
    }

    /// The player after it shot at `now`.
    pub open spec fn spec_after_shot(self, now: Timestamp) -> Player {
        Player { new_shoot: self.new_shoot.spec_reset(now), ..self }
    }

    /// The player after a hit at `now` that takes `damage` hit points: it
    /// loses them, or all it has left, and nothing hits it again until its
    /// immunity is over.
    pub open spec fn spec_take_hit(self, damage: u32, now: Timestamp) -> Player {
        Player {
            hp: if self.hp > damage {
                (self.hp - damage) as u32
            } else {
                0
            },
            immunity: self.immunity.spec_reset(now),
            ..self
        }
    }

    /// The player at the start of a level.
    #[verifier::when_used_as_spec(spec_new)]
    pub fn new() -> (player: Player)
        ensures
            player == Player::spec_new(),
    {
        let pos = Point { x: PLAYER_START_X, y: PLAYER_START_Y };
        Player {
            pos,
            vel: Vector::zero(),
            size: Dimensions { w: PLAYER_SIDE, h: PLAYER_SIDE },
            hitbox: CenteredBox {
                center: pos,
                dims: Dimensions { w: PLAYER_HITBOX_SIDE, h: PLAYER_HITBOX_SIDE },
            },
            hp: PLAYER_MAX_HP,
            immunity: Cooldown::with_duration(Duration { nanos: PLAYER_IMMUNITY_NANOS }),
            new_shoot: Cooldown::with_duration(Duration { nanos: PLAYER_FIRE_NANOS }),
        }
    }

    /// Whether the player can be hit at `now`.
    #[verifier::when_used_as_spec(spec_immunity_over)]
    pub fn immunity_over(&self, now: Timestamp) -> (over: bool)
        ensures
            over == self.spec_immunity_over(now),
    {
        self.immunity.is_over(now)
    }

    /// Updates the player by `dt` with the given keys down.
    pub fn update_pos(&mut self, inputs: &Inputs, bounds: Rect<i64>, dt: Duration)
        ensures
            *final(self) == old(self).spec_update_pos(*inputs, bounds, dt),
            old(self).within(bounds) ==> final(self).within(bounds),
    {
        let mut vx: i64 = 0;
        let mut vy: i64 = 0;
        if inputs.left {
            vx = vx - PLAYER_SPEED;
        }
        if inputs.right {
            vx = vx + PLAYER_SPEED;
        }
        if inputs.up {
            vy = vy - PLAYER_SPEED;
        }
        if inputs.down {
            vy = vy + PLAYER_SPEED;
        }
        self.vel = Vector { x: vx, y: vy };
        if vx != 0 || vy != 0 {
            self.pos.x = step_within(self.pos.x, vx, dt, bounds.dims.w);
            self.pos.y = step_within(self.pos.y, vy, dt, bounds.dims.h);
            self.hitbox.center = self.pos;
        }
    }

    /// Lets the player shoot if it can: returns the projectile and starts the
    /// cooldown anew, or returns nothing and leaves the player as it is.
    pub fn try_fire(&mut self, shoot: bool, now: Timestamp) -> (shot: Option<Projectile>)
        ensures
            old(self).spec_fires(shoot, now) ==> shot == Some(old(self).spec_shot()) && *final(self)
                == old(self).spec_after_shot(now),
            !old(self).spec_fires(shoot, now) ==> shot.is_none() && *final(self) == *old(self),
    {
        if shoot && self.new_shoot.is_over(now) {
            let proj = Projectile {
                pos: self.pos.lowered(-half_of(self.size.h)),
                vel: Vector { x: 0, y: -(PROJ_SPEED as i64) },
                variant: ProjType::PlayerShoot,
            };
            self.new_shoot.reset(now);
            Some(proj)
        } else {
            None
        }
    }

    /// Takes `damage` hit points from the player and starts its immunity.
    pub fn take_hit(&mut self, damage: u32, now: Timestamp)
        ensures
            *final(self) == old(self).spec_take_hit(damage, now),
    {
        self.hp = self.hp.saturating_sub(damage);
        self.immunity.reset(now);
    }
}

/// One coordinate of the player after its step.
fn step_within(coord: i64, v: i64, dt: Duration, extent: i64) -> (stepped: i64)
    ensures
        stepped == stepped_within(coord, v * dt.nanos, extent),
{
    proof {
        crate::coords::lemma_displacement_fits(v, dt.nanos);
    }
    let target: i128 = coord as i128 + (v as i128) * (dt.nanos as i128);
    if 0 <= target && target <= extent as i128 {
        target as i64
    } else {
        coord
    }
}

} // verus!
