//! Enemies: how they enter the arena, move, shoot, get shot and leave.
//!
//! An enemy starts above or beside the arena and moves down until it is
//! inside. From then on its kind steers it. It is removed when it leaves the
//! arena again, or when its hit points are gone.

use vstd::prelude::*;
use crate::aim::{aim, spec_aim};
use crate::cooldown::Cooldown;
use crate::coords::{half, half_of, three_fifths, three_fifths_of, Dimensions, Point, Rect, Vector};
use crate::projectile::{ProjType, Projectile, PROJ_SPEED};
use crate::time::{Duration, Timestamp};

verus! {

/// The speed at which enemies enter and at which a basic enemy moves on
/// each axis: half a pixel per reference tick.
pub const ENEMY_SPEED: i64 = 300;

/// The speed at which a sniper circles: two and a half pixels per
/// reference tick.
pub const SNIPER_SPEED: u16 = 1500;

/// The hit points of a basic enemy when it appears.
pub const BASIC_MAX_HP: u32 = 15;

/// The hit points of a sniper when it appears.
pub const SNIPER_MAX_HP: u32 = 8;

/// The width of a basic enemy, and the height of every enemy: 48 pixels.
pub const ENEMY_SIDE: i64 = 480_000_000_000;

/// The width of a sniper: 32 pixels.
pub const SNIPER_WIDTH: i64 = 320_000_000_000;

/// The time between two shots of a basic enemy: 25 reference ticks.
pub const BASIC_FIRE_NANOS: u64 = 416_666_666;

/// The time between two shots of a sniper: 40 reference ticks.
pub const SNIPER_FIRE_NANOS: u64 = 666_666_666;

/// The kinds of enemy.
#[derive(Clone, Copy, Debug, PartialEq, Eq, Structural)]
pub enum EnemyType {
    Basic,
    Sniper,
}

/// Where an enemy is in its life.
#[derive(Clone, Copy, Debug, PartialEq, Eq, Structural)]
pub enum EnemyState {
    /// On its way into the arena.
    NotSpawned,
    /// Inside the arena, steered by its kind.
    OnScreen,
    /// Left the arena after it had entered: to be removed, for no score.
    OffScreen,
    /// Out of hit points: to be removed, for a score.
    Dead,
}

/// An enemy.
#[derive(Clone, Copy, Debug, PartialEq, Eq, Structural)]
pub struct Enemy {
    pub pos: Point<i64>,
    pub vel: Vector,
    pub size: Dimensions<i64>,
    pub hp: u32,
    pub proj_cd: Cooldown,
    pub variant: EnemyType,
    pub state: EnemyState,
}

/// The velocity at which an enemy enters the arena: straight down.
pub open spec fn entry_velocity() -> Vector {
    Vector { x: 0, y: ENEMY_SPEED }
}

impl Enemy {
    /// The hit points of an enemy of this kind when it appears.
    pub open spec fn spec_max_hp(variant: EnemyType) -> u32 {
        match variant {
            EnemyType::Basic => BASIC_MAX_HP,
            EnemyType::Sniper => SNIPER_MAX_HP,
        }
    }

    /// The size of an enemy of this kind.
    pub open spec fn spec_size(variant: EnemyType) -> Dimensions<i64> {
        match variant {
            EnemyType::Basic => Dimensions { w: ENEMY_SIDE, h: ENEMY_SIDE },
            EnemyType::Sniper => Dimensions { w: SNIPER_WIDTH, h: ENEMY_SIDE },
        }
    }

    /// The time between two shots of an enemy of this kind.
    pub open spec fn spec_fire_interval(variant: EnemyType) -> Duration {
        match variant {
            EnemyType::Basic => Duration { nanos: BASIC_FIRE_NANOS },
            EnemyType::Sniper => Duration { nanos: SNIPER_FIRE_NANOS },
        }
    }

    /// A new enemy of the given kind at `pos`: at rest, with all its hit
    /// points, ready to shoot, not yet inside the arena.
    pub open spec fn spec_spawn(pos: Point<i64>, variant: EnemyType) -> Enemy {
        Enemy {
            pos,
            vel: Vector::spec_zero(),
            size: Enemy::spec_size(variant),
            hp: Enemy::spec_max_hp(variant),
            proj_cd: Cooldown::spec_with_duration(Enemy::spec_fire_interval(variant)),
            variant,
            state: EnemyState::NotSpawned,
        }
    }

    /// What holds of every enemy that this module made and changed: it has
    /// no more hit points than its kind starts with, and it is dead exactly
    /// when it has none left.
    pub open spec fn wf(&self) -> bool {
        &&& self.hp <= Enemy::spec_max_hp(self.variant)
        &&& (self.state == EnemyState::Dead <==> self.hp == 0)
    }

    /// The velocity that an enemy of the given kind takes at `pos`, once it
    /// is inside the arena.
    ///
    /// A basic enemy moves down and, at the same speed, sideways toward the
    /// half of the arena that it is not in. A sniper circles the middle of
    /// the upper edge: its velocity is the one that points there, turned by
    /// a quarter; at that very place it rests.
    pub open spec fn spec_steer(variant: EnemyType, pos: Point<i64>, bounds: Rect<i64>) -> Vector {
        match variant {
            EnemyType::Basic => Vector {
                x: if 2 * pos.x <= bounds.dims.w {
                    ENEMY_SPEED
                } else {
                    (-ENEMY_SPEED) as i64
                },
                y: ENEMY_SPEED,
            },
            EnemyType::Sniper => {
                let mid_up = Point { x: half(bounds.dims.w as int) as i64, y: 0i64 };
                let to_mid = spec_aim(pos, mid_up, SNIPER_SPEED);
                Vector { x: to_mid.y, y: (-to_mid.x) as i64 }
            },
        }
    }

    /// The enemy after an update of `dt`.
    ///
    /// On its way in, it takes the entry velocity and one step, and is inside
    /// from then on if that step took it into the arena. Inside, its kind
    /// steers it, and it has left if it is no longer in the arena. Then, in
    /// whatever state, it takes the step of this update at its velocity.
    pub open spec fn spec_update_pos(self, bounds: Rect<i64>, dt: Duration) -> Enemy {
        let steered = match self.state {
            EnemyState::NotSpawned => {
                let pos = self.pos.spec_moved(entry_velocity(), dt);
                Enemy {
                    pos,
                    vel: entry_velocity(),
                    state: if bounds.spec_contains(pos) {
                        EnemyState::OnScreen
                    } else {
                        EnemyState::NotSpawned
                    },
                    ..self
                }
            },
            EnemyState::OnScreen => Enemy {
                vel: Enemy::spec_steer(self.variant, self.pos, bounds),
                state: if bounds.spec_contains(self.pos) {
                    EnemyState::OnScreen
                } else {
                    EnemyState::OffScreen
                },
                ..self
            },
            _ => self,
        };
        if steered.vel != Vector::spec_zero() {
            Enemy { pos: steered.pos.spec_moved(steered.vel, dt), ..steered }
        } else {
            steered
        }
    }

    /// The enemy after a hit that takes `damage` hit points: it loses them,
    /// or all it has left, and is dead once it has none.
    pub open spec fn spec_get_shot(self, damage: u32) -> Enemy {
        let hp = if self.hp > damage {
            (self.hp - damage) as u32
        } else {
            0
        };
        Enemy {
            hp,
            state: if hp == 0 {
                EnemyState::Dead
            } else {
                self.state
            },
            ..self
        }
    }

    /// Whether the enemy shoots at `now`: its cooldown is over and it is in
    /// the arena.
    pub open spec fn spec_fires(&self, bounds: Rect<i64>, now: Timestamp) -> bool {
        self.proj_cd.spec_is_over(now) && bounds.spec_contains(self.pos)
    }

    /// Where the projectiles of the enemy appear: below its center, by three
    /// fifths of its height.
    pub open spec fn spec_muzzle(&self) -> Point<i64> {
        self.pos.spec_lowered(three_fifths(self.size.h as int))
    }

    /// The projectile that the enemy shoots when the player is at `target`:
    /// straight down from a basic enemy, toward the player from a sniper.
    pub open spec fn spec_shot(&self, target: Point<i64>) -> Projectile {
        match self.variant {
            EnemyType::Basic => Projectile {
                pos: self.spec_muzzle(),
                vel: Vector { x: 0, y: PROJ_SPEED as i64 },
                variant: ProjType::Basic,
            },
            EnemyType::Sniper => Projectile {
                pos: self.spec_muzzle(),
                vel: spec_aim(self.spec_muzzle(), target, PROJ_SPEED),
                variant: ProjType::Aimed,
            },
        }
    }

    /// The enemy after it shot at `now`.
    pub open spec fn spec_after_shot(self, now: Timestamp) -> Enemy {
        Enemy { proj_cd: self.proj_cd.spec_reset(now), ..self }
    }

    /// The hit points of an enemy of this kind when it appears.
    #[verifier::when_used_as_spec(spec_max_hp)]
    pub fn max_hp(variant: EnemyType) -> (hp: u32)
        ensures
            hp == Enemy::spec_max_hp(variant),
    {
        match variant {
            EnemyType::Basic => BASIC_MAX_HP,
            EnemyType::Sniper => SNIPER_MAX_HP,
        }
    }

    /// A new enemy of the given kind at `pos`.
    #[verifier::when_used_as_spec(spec_spawn)]
    pub fn spawn(pos: Point<i64>, variant: EnemyType) -> (enemy: Enemy)
        ensures
            enemy == Enemy::spec_spawn(pos, variant),
            enemy.wf(),
    {
        let (size, interval) = match variant {
            EnemyType::Basic => (
                Dimensions { w: ENEMY_SIDE, h: ENEMY_SIDE },
                Duration { nanos: BASIC_FIRE_NANOS },
            ),
            EnemyType::Sniper => (
                Dimensions { w: SNIPER_WIDTH, h: ENEMY_SIDE },
                Duration { nanos: SNIPER_FIRE_NANOS },
            ),
        };
        Enemy {
            pos,
            vel: Vector::zero(),
            size,
            hp: Enemy::max_hp(variant),
            proj_cd: Cooldown::with_duration(interval),
            variant,
            state: EnemyState::NotSpawned,
        }
    }

    /// Gives the enemy the velocity that its kind takes where it is.
    pub fn enemy_func(&mut self, bounds: Rect<i64>)
        ensures
            *final(self) == (Enemy {
                vel: Enemy::spec_steer(old(self).variant, old(self).pos, bounds),
                ..*old(self)
            }),
    {
        match self.variant {
            EnemyType::Basic => {
                let left_half = 2 * (self.pos.x as i128) <= bounds.dims.w as i128;
                self.vel = Vector {
                    x: if left_half {
                        ENEMY_SPEED
                    } else {
                        -ENEMY_SPEED
                    },
                    y: ENEMY_SPEED,
                };
            },
            EnemyType::Sniper => {
                let mid_up = Point { x: half_of(bounds.dims.w), y: 0 };
                let to_mid = aim(self.pos, mid_up, SNIPER_SPEED);
                proof {
                    crate::aim::lemma_aim_is_slow(self.pos, mid_up, SNIPER_SPEED);
                }
                self.vel = Vector { x: to_mid.y, y: -to_mid.x };
            },
        }
    }

    /// Updates the enemy by `dt`: entry, steering, leaving, and the step.
    pub fn update_pos(&mut self, bounds: Rect<i64>, dt: Duration)
        ensures
            *final(self) == old(self).spec_update_pos(bounds, dt),
            old(self).wf() ==> final(self).wf(),
    {
        match self.state {
            EnemyState::NotSpawned => {
                self.vel = Vector { x: 0, y: ENEMY_SPEED };
                self.pos = self.pos.moved(self.vel, dt);
                if bounds.contains(self.pos) {
                    self.state = EnemyState::OnScreen;
                }
            },
            EnemyState::OnScreen => {
                self.enemy_func(bounds);
                if !bounds.contains(self.pos) {
                    self.state = EnemyState::OffScreen;
                }
            },
            _ => {},
        }
        if self.vel != Vector::zero() {
            self.pos = self.pos.moved(self.vel, dt);
        }
    }

    /// Takes `damage` hit points from the enemy.
    pub fn get_shot(&mut self, damage: u32)
        ensures
            *final(self) == old(self).spec_get_shot(damage),
            old(self).wf() ==> final(self).wf(),
    {
        self.hp = self.hp.saturating_sub(damage);
        if self.hp == 0 {
            self.state = EnemyState::Dead;
        }
    }

    /// Lets the enemy shoot if it can: returns the projectile and starts the
    /// cooldown anew, or returns nothing and leaves the enemy as it is.
    pub fn try_fire(&mut self, target: Point<i64>, bounds: Rect<i64>, now: Timestamp) -> (shot:
        Option<Projectile>)
        ensures
            old(self).spec_fires(bounds, now) ==> shot == Some(old(self).spec_shot(target))
                && *final(self) == old(self).spec_after_shot(now),
            !old(self).spec_fires(bounds, now) ==> shot.is_none() && *final(self) == *old(self),
    {
        if self.proj_cd.is_over(now) && bounds.contains(self.pos) {
            let pos = self.pos.lowered(three_fifths_of(self.size.h));
            let proj = match self.variant {
                EnemyType::Basic => Projectile {
                    pos,
                    vel: Vector { x: 0, y: PROJ_SPEED as i64 },
                    variant: ProjType::Basic,
                },
                EnemyType::Sniper => Projectile {
                    pos,
                    vel: aim(pos, target, PROJ_SPEED),
                    variant: ProjType::Aimed,
                },
            };
            self.proj_cd.reset(now);
            Some(proj)
        } else {
            None
        }
    }
}

/// The sum of the hit points that some hits take.
pub open spec fn total_damage(damages: Seq<u32>) -> int
    decreases damages.len(),
{
    if damages.len() == 0 {
        0
    } else {
        total_damage(damages.drop_last()) + damages.last()
    }
}

/// The enemy after one hit for each of `damages`, in their order.
pub open spec fn shot_by(enemy: Enemy, damages: Seq<u32>) -> Enemy
    decreases damages.len(),
{
    if damages.len() == 0 {
        enemy
    } else {
        shot_by(enemy, damages.drop_last()).spec_get_shot(damages.last())
    }
}

/// A hit that takes something from an enemy that has something left leaves
/// it with strictly less.
pub proof fn lemma_hit_lowers_hp(enemy: Enemy, damage: u32)
    requires
        enemy.hp > 0,
        damage > 0,
    ensures
        enemy.spec_get_shot(damage).hp < enemy.hp,
{
}

/// After any hits, an enemy has what it had less all that the hits took, or
/// nothing, and it is dead exactly when the hits took at least what it had.
pub proof fn lemma_dead_when_damage_reaches_hp(enemy: Enemy, damages: Seq<u32>)
    requires
        enemy.wf(),
        enemy.hp > 0,
    ensures
        shot_by(enemy, damages).wf(),
        shot_by(enemy, damages).hp == if total_damage(damages) >= enemy.hp {
            0
        } else {
            enemy.hp - total_damage(damages)
        },
        shot_by(enemy, damages).state == EnemyState::Dead <==> total_damage(damages) >= enemy.hp,
        total_damage(damages) >= 0,
    decreases damages.len(),
{
    if damages.len() > 0 {
        lemma_dead_when_damage_reaches_hp(enemy, damages.drop_last());
    }
}

/// A new enemy is dead exactly when the hits it took add up to the hit
/// points that its kind starts with.
pub proof fn lemma_new_enemy_dies_at_max_hp(pos: Point<i64>, variant: EnemyType, damages: Seq<u32>)
    ensures
        shot_by(Enemy::spec_spawn(pos, variant), damages).state == EnemyState::Dead
            <==> total_damage(damages) >= Enemy::spec_max_hp(variant),
{
    lemma_dead_when_damage_reaches_hp(Enemy::spec_spawn(pos, variant), damages);
}

} // verus!
