use holy_bullet_hell::cooldown::Cooldown;
use holy_bullet_hell::coords::{CenteredBox, Dimensions, Point, Rect, Vector, UNITS_PER_PIXEL};
use holy_bullet_hell::game::Inputs;
use holy_bullet_hell::player::Player;
use holy_bullet_hell::projectile::{ProjType, Projectile};
use holy_bullet_hell::time::{Duration, Timestamp};

const TICK: Duration = Duration { nanos: 16_666_667 };
// five pixels a tick for 16_666_667 nanoseconds
const STEP: i64 = 3000 * 16_666_667;

fn px(n: i64) -> i64 {
    n * UNITS_PER_PIXEL
}

fn arena() -> Rect<i64> {
    Dimensions { w: px(960), h: px(720) }.into_rect()
}

fn keys(left: bool, right: bool, up: bool, down: bool) -> Inputs {
    Inputs { left, right, up, down, shoot: false, _pause: false }
}

#[test]
fn player_new() {
    let p = Player::new();
    assert_eq!(p.pos, Point { x: px(75), y: px(200) });
    assert_eq!(p.vel, Vector { x: 0, y: 0 });
    assert_eq!(p.size, Dimensions { w: px(48), h: px(48) });
    assert_eq!(
        p.hitbox,
        CenteredBox { center: Point { x: px(75), y: px(200) }, dims: Dimensions { w: px(12), h: px(12) } }
    );
    assert_eq!(p.hp, 5);
    assert_eq!(p.immunity, Cooldown::with_duration(Duration { nanos: 2_000_000_000 }));
    assert_eq!(p.new_shoot, Cooldown::with_duration(Duration { nanos: 250_000_000 }));
}

#[test]
fn player_moves_five_pixels_a_tick() {
    let mut p = Player::new();
    p.update_pos(&keys(false, true, false, false), arena(), Duration { nanos: 1_000_000_000 });
    // sixty ticks of five pixels
    assert_eq!(p.pos, Point { x: px(75 + 300), y: px(200) });
}

#[test]
fn player_moves_each_way() {
    let start = Point { x: px(75), y: px(200) };
    let cases = [
        (keys(true, false, false, false), Point { x: start.x - STEP, y: start.y }),
        (keys(false, true, false, false), Point { x: start.x + STEP, y: start.y }),
        (keys(false, false, true, false), Point { x: start.x, y: start.y - STEP }),
        (keys(false, false, false, true), Point { x: start.x, y: start.y + STEP }),
    ];
    for (inputs, expected) in cases {
        let mut p = Player::new();
        p.update_pos(&inputs, arena(), TICK);
        assert_eq!(p.pos, expected);
        assert_eq!(p.hitbox.center, expected);
    }
}

#[test]
fn player_is_faster_along_both_axes() {
    let mut p = Player::new();
    p.update_pos(&keys(false, true, false, true), arena(), TICK);
    assert_eq!(p.vel, Vector { x: 3000, y: 3000 });
    assert_eq!(p.pos, Point { x: px(75) + STEP, y: px(200) + STEP });
}

#[test]
fn opposite_keys_cancel() {
    let mut p = Player::new();
    p.update_pos(&keys(true, true, false, true), arena(), TICK);
    assert_eq!(p.vel, Vector { x: 0, y: 3000 });
    assert_eq!(p.pos, Point { x: px(75), y: px(200) + STEP });
    let mut q = Player::new();
    q.update_pos(&keys(true, true, true, true), arena(), TICK);
    assert_eq!(q.pos, Point { x: px(75), y: px(200) });
    assert_eq!(q.vel, Vector { x: 0, y: 0 });
}

#[test]
fn player_without_keys_stays() {
    let mut p = Player::new();
    p.vel = Vector { x: 9, y: 9 };
    p.hitbox.center = Point { x: 1, y: 1 };
    p.update_pos(&keys(false, false, false, false), arena(), TICK);
    assert_eq!(p.pos, Point { x: px(75), y: px(200) });
    assert_eq!(p.vel, Vector { x: 0, y: 0 });
    // the hit box follows only a move
    assert_eq!(p.hitbox.center, Point { x: 1, y: 1 });
}

#[test]
fn player_does_not_leave_the_arena() {
    let mut p = Player::new();
    p.pos = Point { x: px(1), y: px(1) };
    p.update_pos(&keys(true, false, true, false), arena(), TICK);
    // the step of five pixels would leave on both axes
    assert_eq!(p.pos, Point { x: px(1), y: px(1) });
    assert_eq!(p.hitbox.center, Point { x: px(1), y: px(1) });
}

#[test]
fn player_slides_along_an_edge() {
    let mut p = Player::new();
    p.pos = Point { x: px(1), y: px(300) };
    p.update_pos(&keys(true, false, false, true), arena(), TICK);
    assert_eq!(p.pos, Point { x: px(1), y: px(300) + STEP });
    let mut q = Player::new();
    q.pos = Point { x: px(500), y: px(719) };
    q.update_pos(&keys(false, true, false, true), arena(), TICK);
    assert_eq!(q.pos, Point { x: px(500) + STEP, y: px(719) });
}

#[test]
fn player_can_stand_on_the_far_edges() {
    let mut p = Player::new();
    p.pos = Point { x: px(960) - STEP, y: px(720) - STEP };
    p.update_pos(&keys(false, true, false, true), arena(), TICK);
    assert_eq!(p.pos, Point { x: px(960), y: px(720) });
    p.update_pos(&keys(false, true, false, true), arena(), Duration { nanos: 1 });
    assert_eq!(p.pos, Point { x: px(960), y: px(720) });
}

#[test]
fn player_survives_a_frame_of_any_length() {
    let mut p = Player::new();
    p.update_pos(&keys(false, true, true, false), arena(), Duration { nanos: u64::MAX });
    assert_eq!(p.pos, Point { x: px(75), y: px(200) });
}

#[test]
fn player_shoots_upward_from_above_its_center() {
    let mut p = Player::new();
    let now = Timestamp { nanos: 42 };
    let shot = p.try_fire(true, now);
    assert_eq!(
        shot,
        Some(Projectile {
            pos: Point { x: px(75), y: px(200 - 24) },
            vel: Vector { x: 0, y: -6000 },
            variant: ProjType::PlayerShoot,
        })
    );
    assert_eq!(p.new_shoot.last_emit, Some(now));
}

#[test]
fn player_shoots_only_when_asked_and_ready() {
    let mut p = Player::new();
    let fresh = p;
    assert!(p.try_fire(false, Timestamp { nanos: 0 }).is_none());
    assert_eq!(p, fresh);
    assert!(p.try_fire(true, Timestamp { nanos: 0 }).is_some());
    let after = p;
    assert!(p.try_fire(true, Timestamp { nanos: 249_999_999 }).is_none());
    assert_eq!(p, after);
    assert!(p.try_fire(true, Timestamp { nanos: 250_000_000 }).is_some());
}

#[test]
fn player_loses_hit_points_and_gains_immunity() {
    let mut p = Player::new();
    assert!(p.immunity_over(Timestamp { nanos: 0 }));
    p.take_hit(1, Timestamp { nanos: 100 });
    assert_eq!(p.hp, 4);
    assert!(!p.immunity_over(Timestamp { nanos: 100 }));
    assert!(!p.immunity_over(Timestamp { nanos: 2_000_000_099 }));
    assert!(p.immunity_over(Timestamp { nanos: 2_000_000_100 }));
}

#[test]
fn player_hit_points_stop_at_zero() {
    let mut p = Player::new();
    p.take_hit(7, Timestamp { nanos: 0 });
    assert_eq!(p.hp, 0);
    p.take_hit(1, Timestamp { nanos: 1 });
    assert_eq!(p.hp, 0);
}
