use holy_bullet_hell::coords::Point;
use holy_bullet_hell::enemy::EnemyType;
use holy_bullet_hell::events::{Event, EventSystem, EventType, LEVEL_REF};
use holy_bullet_hell::time::{Duration, Timestamp};

const SEC: u64 = 1_000_000_000;

fn at(nanos: u64) -> Timestamp {
    Timestamp { nanos }
}

fn spawn(x: i64) -> EventType {
    EventType::_SpawnEnemy(Point { x, y: 0 }, EnemyType::Basic)
}

fn after(id: u32, follows: u32, nanos: u64) -> Event {
    Event { id, time: None, ref_evt: Some((follows, Duration { nanos })), variant: spawn(id as i64) }
}

fn times(system: &EventSystem) -> Vec<(u32, Option<Timestamp>, Option<(u32, Duration)>)> {
    system.list.iter().map(|e| (e.id, e.time, e.ref_evt)).collect()
}

#[test]
fn level_ref_is_the_largest_id() {
    assert_eq!(LEVEL_REF, u32::MAX);
}

#[test]
fn new_gives_a_time_to_what_follows_the_start() {
    let system = EventSystem::new(vec![after(1, LEVEL_REF, 3 * SEC), after(2, 1, SEC)], at(10));
    assert_eq!(
        times(&system),
        vec![(1, Some(at(10 + 3 * SEC)), None), (2, None, Some((1, Duration { nanos: SEC })))]
    );
    assert!(system.history.is_empty());
    assert!(!system.events_clear());
}

#[test]
fn new_keeps_an_event_with_a_time_of_its_own() {
    let timed = Event { id: 4, time: Some(at(77)), ref_evt: None, variant: spawn(4) };
    let system = EventSystem::new(vec![timed], at(1000));
    assert_eq!(times(&system), vec![(4, Some(at(77)), None)]);
}

#[test]
fn an_empty_script_is_clear() {
    let mut system = EventSystem::new(vec![], at(0));
    assert!(system.events_clear());
    assert!(system.process(at(5)).is_empty());
    assert!(system.events_clear());
}

#[test]
fn an_event_fires_when_its_time_has_come_and_not_before() {
    let mut system = EventSystem::new(vec![after(1, LEVEL_REF, 3 * SEC)], at(10));
    assert!(system.process(at(10)).is_empty());
    assert!(system.process(at(10 + 3 * SEC - 1)).is_empty());
    assert_eq!(system.list.len(), 1);
    assert!(system.history.is_empty());
    assert_eq!(system.process(at(10 + 3 * SEC)), vec![spawn(1)]);
    assert!(system.events_clear());
    assert_eq!(system.history.get(&1), Some(&at(10 + 3 * SEC)));
}

#[test]
fn an_event_fires_late_if_the_call_is_late() {
    let mut system = EventSystem::new(vec![after(1, LEVEL_REF, SEC)], at(0));
    assert_eq!(system.process(at(50 * SEC)), vec![spawn(1)]);
    assert_eq!(system.history.get(&1), Some(&at(50 * SEC)));
}

#[test]
fn an_event_fires_only_once() {
    let mut system = EventSystem::new(vec![after(1, LEVEL_REF, 0)], at(0));
    assert_eq!(system.process(at(0)).len(), 1);
    assert!(system.process(at(0)).is_empty());
    assert!(system.process(at(100)).is_empty());
}

#[test]
fn events_fire_in_the_order_of_the_script() {
    let script = vec![
        after(1, LEVEL_REF, 5),
        after(2, LEVEL_REF, 900),
        after(3, LEVEL_REF, 1),
        after(4, LEVEL_REF, 3),
    ];
    let mut system = EventSystem::new(script, at(0));
    assert_eq!(system.process(at(5)), vec![spawn(1), spawn(3), spawn(4)]);
    assert_eq!(times(&system), vec![(2, Some(at(900)), None)]);
}

#[test]
fn a_follower_gets_its_time_when_the_other_fires() {
    let mut system = EventSystem::new(vec![after(1, LEVEL_REF, SEC), after(2, 1, 2 * SEC)], at(0));
    assert!(system.process(at(SEC / 2)).is_empty());
    assert_eq!(times(&system)[1], (2, None, Some((1, Duration { nanos: 2 * SEC }))));
    // the first fires late, at 1.5 s: the follower is due two seconds after that
    assert_eq!(system.process(at(3 * SEC / 2)), vec![spawn(1)]);
    assert_eq!(times(&system), vec![(2, Some(at(7 * SEC / 2)), None)]);
    assert!(system.process(at(7 * SEC / 2 - 1)).is_empty());
    assert_eq!(system.process(at(7 * SEC / 2)), vec![spawn(2)]);
    assert!(system.events_clear());
}

#[test]
fn a_follower_needs_a_call_of_its_own() {
    // even without any delay the follower does not fire in the call in which the other does
    let mut system = EventSystem::new(vec![after(1, LEVEL_REF, 0), after(2, 1, 0)], at(0));
    assert_eq!(system.process(at(100)), vec![spawn(1)]);
    assert!(!system.events_clear());
    assert_eq!(system.process(at(100)), vec![spawn(2)]);
    assert!(system.events_clear());
}

#[test]
fn a_chain_takes_one_call_for_each_link() {
    let script = vec![after(3, 2, 0), after(2, 1, 0), after(1, LEVEL_REF, 0), after(4, 3, 0)];
    let mut system = EventSystem::new(script, at(0));
    assert_eq!(system.process(at(9)), vec![spawn(1)]);
    assert_eq!(system.process(at(9)), vec![spawn(2)]);
    assert_eq!(system.process(at(9)), vec![spawn(3)]);
    assert_eq!(system.process(at(9)), vec![spawn(4)]);
    assert!(system.process(at(9)).is_empty());
    assert!(system.events_clear());
}

#[test]
fn several_followers_of_one_event() {
    let script = vec![after(1, LEVEL_REF, 10), after(2, 1, 5), after(3, 1, 7)];
    let mut system = EventSystem::new(script, at(0));
    assert_eq!(system.process(at(10)), vec![spawn(1)]);
    assert_eq!(times(&system), vec![(2, Some(at(15)), None), (3, Some(at(17)), None)]);
    assert_eq!(system.process(at(16)), vec![spawn(2)]);
    assert_eq!(system.process(at(17)), vec![spawn(3)]);
}

#[test]
fn a_follower_of_nothing_waits_forever() {
    let mut system = EventSystem::new(vec![after(2, 99, 0)], at(0));
    assert!(system.process(at(u64::MAX)).is_empty());
    assert!(system.process(at(u64::MAX)).is_empty());
    assert!(!system.events_clear());
}

#[test]
fn a_follower_of_an_event_that_fired_long_ago() {
    let mut system = EventSystem::new(vec![after(1, LEVEL_REF, 0)], at(0));
    assert_eq!(system.process(at(4)), vec![spawn(1)]);
    system.list.push(after(2, 1, 10));
    // the first call gives it its time, counted from when the first fired
    assert!(system.process(at(1000)).is_empty());
    assert_eq!(times(&system), vec![(2, Some(at(14)), None)]);
    assert_eq!(system.process(at(1000)), vec![spawn(2)]);
}

#[test]
fn a_time_beyond_the_last_nanosecond_is_the_last_nanosecond() {
    let system = EventSystem::new(vec![after(1, LEVEL_REF, u64::MAX)], at(5));
    assert_eq!(times(&system), vec![(1, Some(at(u64::MAX)), None)]);
}

#[test]
fn events_of_one_id_share_their_place_in_the_history() {
    let script = vec![after(0, LEVEL_REF, 1), after(0, LEVEL_REF, 2), after(0, 0, 10)];
    let mut system = EventSystem::new(script, at(0));
    assert_eq!(system.process(at(1)).len(), 1);
    assert_eq!(system.history.get(&0), Some(&at(1)));
    // the follower has its time from the first that fired
    assert_eq!(times(&system), vec![(0, Some(at(2)), None), (0, Some(at(11)), None)]);
    assert_eq!(system.process(at(5)).len(), 1);
    assert_eq!(system.history.get(&0), Some(&at(5)));
    assert_eq!(system.history.len(), 1);
}
