use holy_bullet_hell::cooldown::Cooldown;
use holy_bullet_hell::coords::{Dimensions, Point, Rect, Vector, UNITS_PER_PIXEL};
use holy_bullet_hell::enemy::{Enemy, EnemyState, EnemyType};
use holy_bullet_hell::projectile::{ProjType, Projectile};
use holy_bullet_hell::time::{Duration, Timestamp};

const TICK: Duration = Duration { nanos: 16_666_667 };

fn px(n: i64) -> i64 {
    n * UNITS_PER_PIXEL
}

fn arena() -> Rect<i64> {
    Dimensions { w: px(960), h: px(720) }.into_rect()
}

fn on_screen(x: i64, y: i64, variant: EnemyType) -> Enemy {
    let mut e = Enemy::spawn(Point { x, y }, variant);
    e.state = EnemyState::OnScreen;
    e
}

#[test]
fn max_hp_by_kind() {
    assert_eq!(Enemy::max_hp(EnemyType::Basic), 15);
    assert_eq!(Enemy::max_hp(EnemyType::Sniper), 8);
}

#[test]
fn spawn_basic() {
    let e = Enemy::spawn(Point { x: 1, y: 2 }, EnemyType::Basic);
    assert_eq!(e.pos, Point { x: 1, y: 2 });
    assert_eq!(e.vel, Vector { x: 0, y: 0 });
    assert_eq!(e.size, Dimensions { w: px(48), h: px(48) });
    assert_eq!(e.hp, 15);
    assert_eq!(e.proj_cd, Cooldown::with_duration(Duration { nanos: 416_666_666 }));
    assert_eq!(e.variant, EnemyType::Basic);
    assert_eq!(e.state, EnemyState::NotSpawned);
}

#[test]
fn spawn_sniper() {
    let e = Enemy::spawn(Point { x: -1, y: -2 }, EnemyType::Sniper);
    assert_eq!(e.size, Dimensions { w: px(32), h: px(48) });
    assert_eq!(e.hp, 8);
    assert_eq!(e.proj_cd, Cooldown::with_duration(Duration { nanos: 666_666_666 }));
    assert_eq!(e.state, EnemyState::NotSpawned);
}

#[test]
fn hp_strictly_decreases_with_each_hit() {
    let mut e = Enemy::spawn(Point { x: 0, y: 0 }, EnemyType::Basic);
    let mut last = e.hp;
    for damage in [1u32, 3, 2, 1, 4] {
        e.get_shot(damage);
        assert!(e.hp < last);
        last = e.hp;
    }
    assert_eq!(e.hp, 4);
    assert_eq!(e.state, EnemyState::NotSpawned);
}

#[test]
fn enemy_dies_exactly_when_damage_reaches_max_hp() {
    for variant in [EnemyType::Basic, EnemyType::Sniper] {
        let max = Enemy::max_hp(variant);
        for damage in 1..=max + 1 {
            let mut e = Enemy::spawn(Point { x: 0, y: 0 }, variant);
            let mut total = 0;
            while total < max {
                assert_ne!(e.state, EnemyState::Dead);
                assert_eq!(e.hp, max - total);
                e.get_shot(damage);
                total += damage;
            }
            assert_eq!(e.state, EnemyState::Dead);
            assert_eq!(e.hp, 0);
        }
    }
}

#[test]
fn basic_enemy_dies_at_the_eighth_hit_of_two() {
    let mut e = Enemy::spawn(Point { x: 0, y: 0 }, EnemyType::Basic);
    for hit in 1..=7u32 {
        e.get_shot(2);
        assert_eq!(e.hp, 15 - 2 * hit);
        assert_ne!(e.state, EnemyState::Dead);
    }
    e.get_shot(2);
    assert_eq!(e.hp, 0);
    assert_eq!(e.state, EnemyState::Dead);
}

#[test]
fn a_hit_of_nothing_changes_nothing() {
    let mut e = on_screen(5, 5, EnemyType::Sniper);
    let before = e;
    e.get_shot(0);
    assert_eq!(e, before);
}

#[test]
fn a_dead_enemy_stays_dead_without_hit_points() {
    let mut e = Enemy::spawn(Point { x: 0, y: 0 }, EnemyType::Sniper);
    e.get_shot(u32::MAX);
    assert_eq!((e.hp, e.state), (0, EnemyState::Dead));
    e.get_shot(3);
    assert_eq!((e.hp, e.state), (0, EnemyState::Dead));
}

#[test]
fn an_enemy_on_its_way_in_moves_down_twice_a_tick() {
    let mut e = Enemy::spawn(Point { x: px(100), y: px(-10) }, EnemyType::Basic);
    e.update_pos(arena(), TICK);
    // one step is 300 * 16_666_667 units, just over half a pixel
    assert_eq!(e.pos, Point { x: px(100), y: px(-10) + 2 * 5_000_000_100 });
    assert_eq!(e.vel, Vector { x: 0, y: 300 });
    assert_eq!(e.state, EnemyState::NotSpawned);
}

#[test]
fn an_enemy_is_on_screen_once_a_step_took_it_inside() {
    let mut e = Enemy::spawn(Point { x: px(100), y: -2_500_000_000 }, EnemyType::Sniper);
    e.update_pos(arena(), TICK);
    assert_eq!(e.state, EnemyState::OnScreen);
    assert_eq!(e.pos, Point { x: px(100), y: -2_500_000_000 + 2 * 5_000_000_100 });
    assert_eq!(e.vel, Vector { x: 0, y: 300 });
}

#[test]
fn an_enemy_beside_the_arena_never_enters() {
    let mut e = Enemy::spawn(Point { x: px(-1), y: px(10) }, EnemyType::Basic);
    for _ in 0..100 {
        e.update_pos(arena(), TICK);
        assert_eq!(e.state, EnemyState::NotSpawned);
    }
    assert_eq!(e.pos, Point { x: px(-1), y: px(10) + 200 * 5_000_000_100 });
}

#[test]
fn a_basic_enemy_moves_down_and_toward_the_other_half() {
    let mut left = on_screen(px(100), px(100), EnemyType::Basic);
    left.update_pos(arena(), TICK);
    assert_eq!(left.vel, Vector { x: 300, y: 300 });
    assert_eq!(left.pos, Point { x: px(100) + 5_000_000_100, y: px(100) + 5_000_000_100 });
    assert_eq!(left.state, EnemyState::OnScreen);

    let mut right = on_screen(px(500), px(100), EnemyType::Basic);
    right.update_pos(arena(), TICK);
    assert_eq!(right.vel, Vector { x: -300, y: 300 });
    assert_eq!(right.pos, Point { x: px(500) - 5_000_000_100, y: px(100) + 5_000_000_100 });
}

#[test]
fn a_basic_enemy_on_the_middle_line_counts_as_left() {
    let mut e = on_screen(px(480), px(1), EnemyType::Basic);
    e.update_pos(arena(), TICK);
    assert_eq!(e.vel, Vector { x: 300, y: 300 });
    let mut f = on_screen(px(480) + 1, px(1), EnemyType::Basic);
    f.update_pos(arena(), TICK);
    assert_eq!(f.vel, Vector { x: -300, y: 300 });
}

#[test]
fn a_sniper_at_its_target_rests() {
    // the target is the middle of the upper edge
    let mut e = on_screen(px(480), 0, EnemyType::Sniper);
    e.vel = Vector { x: 11, y: 12 };
    e.update_pos(arena(), TICK);
    assert_eq!(e.vel, Vector { x: 0, y: 0 });
    assert_eq!(e.pos, Point { x: px(480), y: 0 });
    assert_eq!(e.state, EnemyState::OnScreen);
}

#[test]
fn a_sniper_circles_its_target() {
    // straight below the target: the way there is up, a quarter turn makes it left
    let mut below = on_screen(px(480), px(100), EnemyType::Sniper);
    below.update_pos(arena(), TICK);
    assert_eq!(below.vel, Vector { x: -1500, y: 0 });
    assert_eq!(below.pos, Point { x: px(480) - 1500 * 16_666_667, y: px(100) });

    // left of the target, on the edge: the way there is right, a quarter turn makes it up
    let mut left = on_screen(px(100), 0, EnemyType::Sniper);
    left.update_pos(arena(), TICK);
    assert_eq!(left.vel, Vector { x: 0, y: -1500 });

    // right of it: down
    let mut right = on_screen(px(900), 0, EnemyType::Sniper);
    right.update_pos(arena(), TICK);
    assert_eq!(right.vel, Vector { x: 0, y: 1500 });
}

#[test]
fn an_enemy_that_left_the_arena_is_off_screen() {
    let mut e = on_screen(px(-1), px(100), EnemyType::Basic);
    e.update_pos(arena(), TICK);
    assert_eq!(e.state, EnemyState::OffScreen);
    let mut f = on_screen(px(100), px(720), EnemyType::Sniper);
    f.update_pos(arena(), TICK);
    assert_eq!(f.state, EnemyState::OffScreen);
}

#[test]
fn dead_and_gone_enemies_keep_their_velocity() {
    for state in [EnemyState::Dead, EnemyState::OffScreen] {
        let mut e = on_screen(px(100), px(100), EnemyType::Basic);
        e.state = state;
        e.vel = Vector { x: 2, y: 3 };
        e.update_pos(arena(), Duration { nanos: 10 });
        assert_eq!(e.state, state);
        assert_eq!(e.vel, Vector { x: 2, y: 3 });
        assert_eq!(e.pos, Point { x: px(100) + 20, y: px(100) + 30 });
    }
}

#[test]
fn enemy_func_gives_the_velocity_only() {
    let mut e = on_screen(px(700), px(5), EnemyType::Basic);
    let before = e;
    e.enemy_func(arena());
    assert_eq!(e.vel, Vector { x: -300, y: 300 });
    e.vel = before.vel;
    assert_eq!(e, before);
}

#[test]
fn a_basic_enemy_shoots_straight_down() {
    let mut e = on_screen(px(100), px(100), EnemyType::Basic);
    let now = Timestamp { nanos: 5_000 };
    let shot = e.try_fire(Point { x: px(700), y: px(700) }, arena(), now);
    assert_eq!(
        shot,
        Some(Projectile {
            pos: Point { x: px(100), y: px(100) + 288_000_000_000 },
            vel: Vector { x: 0, y: 6000 },
            variant: ProjType::Basic,
        })
    );
    assert_eq!(e.proj_cd.last_emit, Some(now));
}

#[test]
fn a_sniper_shoots_at_the_player() {
    let mut e = on_screen(px(100), px(100), EnemyType::Sniper);
    let now = Timestamp { nanos: 0 };
    // the shot appears 28.8 pixels below the sniper; the player is straight right of that
    let target = Point { x: px(500), y: px(100) + 288_000_000_000 };
    let shot = e.try_fire(target, arena(), now);
    assert_eq!(
        shot,
        Some(Projectile {
            pos: Point { x: px(100), y: px(100) + 288_000_000_000 },
            vel: Vector { x: 6000, y: 0 },
            variant: ProjType::Aimed,
        })
    );
}

#[test]
fn a_sniper_shot_at_its_own_place_rests() {
    let mut e = on_screen(px(100), px(100), EnemyType::Sniper);
    let target = Point { x: px(100), y: px(100) + 288_000_000_000 };
    let shot = e.try_fire(target, arena(), Timestamp { nanos: 0 });
    assert_eq!(shot.map(|p| p.vel), Some(Vector { x: 0, y: 0 }));
}

#[test]
fn an_enemy_shoots_once_per_interval() {
    let mut e = on_screen(px(100), px(100), EnemyType::Basic);
    let target = Point { x: 0, y: 0 };
    assert!(e.try_fire(target, arena(), Timestamp { nanos: 1_000 }).is_some());
    let after_first = e;
    assert!(e.try_fire(target, arena(), Timestamp { nanos: 1_000 }).is_none());
    assert!(e.try_fire(target, arena(), Timestamp { nanos: 1_000 + 416_666_665 }).is_none());
    assert_eq!(e, after_first);
    assert!(e.try_fire(target, arena(), Timestamp { nanos: 1_000 + 416_666_666 }).is_some());
}

#[test]
fn an_enemy_outside_the_arena_does_not_shoot() {
    let mut e = Enemy::spawn(Point { x: px(100), y: px(-5) }, EnemyType::Basic);
    let before = e;
    assert!(e.try_fire(Point { x: 0, y: 0 }, arena(), Timestamp { nanos: 9 }).is_none());
    assert_eq!(e, before);
}
