use holy_bullet_hell::coords::{Dimensions, Point, Vector, UNITS_PER_PIXEL};
use holy_bullet_hell::projectile::{proj_size, ProjType, Projectile, PROJ_SIDE, PROJ_SPEED};
use holy_bullet_hell::time::Duration;

fn shot(variant: ProjType) -> Projectile {
    Projectile { pos: Point { x: 0, y: 0 }, vel: Vector { x: 0, y: 0 }, variant }
}

#[test]
fn projectile_damage_by_kind() {
    assert_eq!(shot(ProjType::Basic).damage(), 1);
    assert_eq!(shot(ProjType::Aimed).damage(), 1);
    assert_eq!(shot(ProjType::PlayerShoot).damage(), 2);
}

#[test]
fn projectile_owner_by_kind() {
    assert!(shot(ProjType::PlayerShoot).is_player_owned());
    assert!(!shot(ProjType::Basic).is_player_owned());
    assert!(!shot(ProjType::Aimed).is_player_owned());
}

#[test]
fn projectile_box_is_ten_pixels() {
    assert_eq!(PROJ_SIDE, 10 * UNITS_PER_PIXEL);
    assert_eq!(proj_size(), Dimensions { w: PROJ_SIDE, h: PROJ_SIDE });
}

#[test]
fn projectile_speed_is_ten_pixels_a_tick() {
    // ten pixels in a sixtieth of a second are six hundred in a second
    let mut p = Projectile {
        pos: Point { x: 0, y: 0 },
        vel: Vector { x: PROJ_SPEED as i64, y: 0 },
        variant: ProjType::Basic,
    };
    p.advance(Duration { nanos: 1_000_000_000 });
    assert_eq!(p.pos, Point { x: 600 * UNITS_PER_PIXEL, y: 0 });
}

#[test]
fn projectile_advance_keeps_velocity_and_kind() {
    let mut p = Projectile {
        pos: Point { x: 5, y: 5 },
        vel: Vector { x: 2, y: -3 },
        variant: ProjType::Aimed,
    };
    p.advance(Duration { nanos: 4 });
    assert_eq!(
        p,
        Projectile { pos: Point { x: 13, y: -7 }, vel: Vector { x: 2, y: -3 }, variant: ProjType::Aimed }
    );
}

#[test]
fn projectile_motion_is_linear_without_drift() {
    let start = Point { x: 1_000i64, y: -2_000i64 };
    let vel = Vector { x: 4321, y: -1234 };
    let spans = [16_666_667u64, 1, 0, 33_333_333, 8_000_000, 999, 16_000_001];
    let mut p = Projectile { pos: start, vel, variant: ProjType::PlayerShoot };
    let mut total: i64 = 0;
    for &nanos in spans.iter() {
        p.advance(Duration { nanos });
        total += nanos as i64;
        assert_eq!(p.pos, Point { x: start.x + vel.x * total, y: start.y + vel.y * total });
        assert_eq!(p.vel, vel);
    }
    // the same as one flight for the whole time
    let mut q = Projectile { pos: start, vel, variant: ProjType::PlayerShoot };
    q.advance(Duration { nanos: total as u64 });
    assert_eq!(p, q);
}
