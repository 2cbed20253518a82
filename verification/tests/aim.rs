use holy_bullet_hell::aim::{aim, AIM_GRAIN};
use holy_bullet_hell::coords::{Point, Vector, UNITS_PER_PIXEL};

fn at(x: i64, y: i64) -> Point<i64> {
    Point { x, y }
}

#[test]
fn nothing_points_from_a_place_to_itself() {
    assert_eq!(aim(at(7, 9), at(7, 9), 1500), Vector { x: 0, y: 0 });
    assert_eq!(aim(at(i64::MAX, i64::MIN), at(i64::MAX, i64::MIN), 6000), Vector { x: 0, y: 0 });
}

#[test]
fn places_less_than_a_grain_apart_are_one_place() {
    assert_eq!(aim(at(0, 0), at(AIM_GRAIN - 1, -(AIM_GRAIN - 1)), 6000), Vector { x: 0, y: 0 });
}

#[test]
fn aim_along_an_axis_has_the_whole_speed() {
    let far = 100 * UNITS_PER_PIXEL;
    assert_eq!(aim(at(0, 0), at(far, 0), 6000), Vector { x: 6000, y: 0 });
    assert_eq!(aim(at(0, 0), at(-far, 0), 6000), Vector { x: -6000, y: 0 });
    assert_eq!(aim(at(0, 0), at(0, far), 1500), Vector { x: 0, y: 1500 });
    assert_eq!(aim(at(0, 0), at(0, -far), 1500), Vector { x: 0, y: -1500 });
    assert_eq!(aim(at(0, 0), at(AIM_GRAIN, 0), 1), Vector { x: 1, y: 0 });
}

#[test]
fn aim_along_a_three_four_five_triangle() {
    let g = AIM_GRAIN;
    assert_eq!(aim(at(0, 0), at(3 * g, 4 * g), 1500), Vector { x: 900, y: 1200 });
    assert_eq!(aim(at(0, 0), at(-3 * g, 4 * g), 1500), Vector { x: -900, y: 1200 });
    assert_eq!(aim(at(g, g), at(5 * g, -2 * g), 6000), Vector { x: 4800, y: -3600 });
}

#[test]
fn aim_rounds_each_component_toward_zero() {
    // along the diagonal each component is 10 / sqrt(2) = 7.07...
    let g = AIM_GRAIN;
    assert_eq!(aim(at(0, 0), at(g, g), 10), Vector { x: 7, y: 7 });
    assert_eq!(aim(at(0, 0), at(-g, -g), 10), Vector { x: -7, y: -7 });
}

#[test]
fn aim_is_never_faster_than_its_speed() {
    let g = AIM_GRAIN;
    let speeds = [0u16, 1, 7, 1500, 6000, u16::MAX];
    let ends = [-1000 * g, -3 * g, -g, 0, g, 2 * g, 999 * g, i64::MAX, i64::MIN];
    for &speed in speeds.iter() {
        for &x in ends.iter() {
            for &y in ends.iter() {
                let v = aim(at(0, 0), at(x, y), speed);
                let s = speed as i128;
                assert!((v.x as i128) * (v.x as i128) + (v.y as i128) * (v.y as i128) <= s * s);
            }
        }
    }
}

#[test]
fn aim_works_over_the_whole_range_of_coordinates() {
    let v = aim(at(i64::MIN, i64::MIN), at(i64::MAX, i64::MAX), 10);
    assert_eq!(v, Vector { x: 7, y: 7 });
    let w = aim(at(i64::MAX, 0), at(i64::MIN, 0), 6000);
    assert_eq!(w, Vector { x: -6000, y: 0 });
}

#[test]
fn aim_at_speed_zero_rests() {
    assert_eq!(aim(at(0, 0), at(i64::MAX, 5), 0), Vector { x: 0, y: 0 });
}
