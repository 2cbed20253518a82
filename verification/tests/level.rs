use holy_bullet_hell::coords::{Point, UNITS_PER_PIXEL};
use holy_bullet_hell::enemy::EnemyType;
use holy_bullet_hell::events::{Event, EventType, LEVEL_REF};
use holy_bullet_hell::level::{parse_level, LevelText};
use holy_bullet_hell::time::Duration;

fn read(text: &str) -> Option<LevelText> {
    let chars: Vec<char> = text.chars().collect();
    parse_level(&chars)
}

fn name_of(level: &LevelText) -> String {
    level.name.iter().collect()
}

fn parts(e: &Event) -> (u32, bool, Option<(u32, u64)>, EventType) {
    (e.id, e.time.is_none(), e.ref_evt.map(|(id, d)| (id, d.nanos)), e.variant)
}

fn only_event(line: &str) -> Option<Event> {
    let level = read(line)?;
    assert_eq!(level.events.len(), 1);
    Some(level.events[0])
}

fn seconds_of(word: &str) -> Option<u64> {
    let line = format!("@spawn-enemy basic {} 0 0 -", word);
    only_event(&line).map(|e| e.ref_evt.unwrap().1.nanos)
}

fn x_of(word: &str) -> Option<i64> {
    let line = format!("@spawn-enemy basic 0 {} 0 -", word);
    only_event(&line).map(|e| match e.variant {
        EventType::_SpawnEnemy(pos, _) => pos.x,
    })
}

fn after_of(word: &str) -> Option<u32> {
    let line = format!("@spawn-enemy basic 0 0 0 {}", word);
    only_event(&line).map(|e| e.ref_evt.unwrap().0)
}

#[test]
fn a_level_with_a_title_and_events() {
    let text = "$title First Wave\n# two enemies\n@spawn-enemy basic 1.5 100 -20 -\n\n@spawn-enemy sniper 2 480.25 -30.5 0\n";
    let level = read(text).unwrap();
    assert_eq!(name_of(&level), "First Wave");
    assert_eq!(level.events.len(), 2);
    assert_eq!(
        parts(&level.events[0]),
        (
            0,
            true,
            Some((LEVEL_REF, 1_500_000_000)),
            EventType::_SpawnEnemy(
                Point { x: 100 * UNITS_PER_PIXEL, y: -20 * UNITS_PER_PIXEL },
                EnemyType::Basic
            )
        )
    );
    assert_eq!(
        parts(&level.events[1]),
        (
            0,
            true,
            Some((0, 2_000_000_000)),
            EventType::_SpawnEnemy(
                Point { x: 4_802_500_000_000, y: -305_000_000_000 },
                EnemyType::Sniper
            )
        )
    );
}

#[test]
fn an_empty_text_is_an_empty_level() {
    let level = read("").unwrap();
    assert_eq!(name_of(&level), "");
    assert!(level.events.is_empty());
    let blank = read("\n\n\n").unwrap();
    assert!(blank.events.is_empty());
}

#[test]
fn other_lines_are_not_read() {
    let level = read("hello\n  @spawn-enemy nothing\n# $title no\n").unwrap();
    assert_eq!(name_of(&level), "");
    assert!(level.events.is_empty());
}

#[test]
fn the_last_line_needs_no_end() {
    let level = read("$title A\n@spawn-enemy basic 0 1 2 -").unwrap();
    assert_eq!(name_of(&level), "A");
    assert_eq!(level.events.len(), 1);
    assert_eq!(name_of(&read("$title Last").unwrap()), "Last");
}

#[test]
fn the_last_title_counts() {
    let level = read("$title One\n$title Two\n").unwrap();
    assert_eq!(name_of(&level), "Two");
}

#[test]
fn a_title_runs_from_behind_one_space_to_the_end_of_its_line() {
    assert_eq!(name_of(&read("$title   two  spaces \n").unwrap()), "  two  spaces ");
    assert_eq!(name_of(&read("$title\tTabbed\r\n").unwrap()), "Tabbed\r");
    assert_eq!(name_of(&read("$title \n").unwrap()), "");
}

#[test]
fn a_property_line_must_be_a_title() {
    assert!(read("$author me\n").is_none());
    assert!(read("$title\n").is_none());
    assert!(read("$\n").is_none());
    assert!(read("$ title x\n").is_none());
    assert!(read("$titles x\n").is_none());
    assert!(read("$Title x\n").is_none());
}

#[test]
fn an_event_line_must_spawn_an_enemy() {
    assert!(read("@spawn-boss 1 2 3 -\n").is_none());
    assert!(read("@\n").is_none());
    assert!(read("@spawn-enemy\n").is_none());
    assert!(read("@spawn-enemies basic 0 0 0 -\n").is_none());
}

#[test]
fn an_event_line_must_name_a_kind() {
    assert!(read("@spawn-enemy tank 0 0 0 -\n").is_none());
    assert!(read("@spawn-enemy Basic 0 0 0 -\n").is_none());
    assert!(read("@spawn-enemy basic 0 0 0 -\n").is_some());
    assert!(read("@spawn-enemy sniper 0 0 0 -\n").is_some());
}

#[test]
fn an_event_line_must_have_all_its_words() {
    assert!(read("@spawn-enemy basic 0 0 0\n").is_none());
    assert!(read("@spawn-enemy basic 0 0\n").is_none());
    assert!(read("@spawn-enemy basic\n").is_none());
    // what follows them is not read
    assert!(read("@spawn-enemy basic 0 0 0 - and more\n").is_some());
}

#[test]
fn one_bad_line_spoils_the_level() {
    assert!(read("$title Fine\n@spawn-enemy basic 0 0 0 -\n@spawn-enemy basic x 0 0 -\n").is_none());
}

#[test]
fn words_are_parted_by_any_white_space() {
    let e = only_event("@  spawn-enemy\tsniper\u{a0}1 \u{2003} 2\u{3000}3   7\r\n").unwrap();
    assert_eq!(
        parts(&e),
        (
            0,
            true,
            Some((7, 1_000_000_000)),
            EventType::_SpawnEnemy(
                Point { x: 2 * UNITS_PER_PIXEL, y: 3 * UNITS_PER_PIXEL },
                EnemyType::Sniper
            )
        )
    );
}

#[test]
fn seconds_are_read_to_the_nanosecond() {
    assert_eq!(seconds_of("0"), Some(0));
    assert_eq!(seconds_of("1"), Some(1_000_000_000));
    assert_eq!(seconds_of("2.5"), Some(2_500_000_000));
    assert_eq!(seconds_of("0.000000001"), Some(1));
    assert_eq!(seconds_of("0.0000000019"), Some(1));
    assert_eq!(seconds_of("0.12345678919"), Some(123_456_789));
    assert_eq!(seconds_of("007.5"), Some(7_500_000_000));
    assert_eq!(seconds_of("+3"), Some(3_000_000_000));
    assert_eq!(seconds_of(".25"), Some(250_000_000));
    assert_eq!(seconds_of("5."), Some(5_000_000_000));
    assert_eq!(seconds_of("-0"), Some(0));
    assert_eq!(seconds_of("-0.0"), Some(0));
}

#[test]
fn seconds_are_not_negative() {
    assert_eq!(seconds_of("-1"), None);
    assert_eq!(seconds_of("-0.000000001"), None);
    // what is dropped does not count
    assert_eq!(seconds_of("-0.0000000001"), Some(0));
}

#[test]
fn pixels_are_read_to_the_position_unit() {
    assert_eq!(x_of("0"), Some(0));
    assert_eq!(x_of("480"), Some(4_800_000_000_000));
    assert_eq!(x_of("-30.5"), Some(-305_000_000_000));
    assert_eq!(x_of("0.0000000001"), Some(1));
    assert_eq!(x_of("-0.0000000001"), Some(-1));
    assert_eq!(x_of("0.00000000019"), Some(1));
    assert_eq!(x_of("1.25"), Some(12_500_000_000));
    assert_eq!(x_of("-.5"), Some(-5_000_000_000));
}

#[test]
fn numbers_are_decimal_digits_with_a_sign_and_a_point() {
    for word in [".", "+", "-", "+.", "1e5", "inf", "nan", "1,5", "1.2.3", "--1", "1-", "0x10", "1_000", "٣"] {
        assert_eq!(x_of(word), None);
        assert_eq!(seconds_of(word), None);
    }
}

#[test]
fn numbers_have_the_range_of_the_coordinates() {
    assert_eq!(x_of("922337203.6854775807"), Some(i64::MAX));
    assert_eq!(x_of("922337203.6854775808"), None);
    assert_eq!(x_of("-922337203.6854775808"), Some(i64::MIN));
    assert_eq!(x_of("-922337203.6854775809"), None);
    assert_eq!(x_of("922337204"), None);
    assert_eq!(x_of("99999999999999999999999999999999999999999999999999"), None);
    assert_eq!(x_of("0.99999999999999999999999999999999999999999999999999"), Some(9_999_999_999));
    assert_eq!(seconds_of("9223372036.854775807"), Some(i64::MAX as u64));
    assert_eq!(seconds_of("9223372036.854775808"), None);
}

#[test]
fn an_event_follows_the_event_of_the_given_number() {
    assert_eq!(after_of("0"), Some(0));
    assert_eq!(after_of("12"), Some(12));
    assert_eq!(after_of("+7"), Some(7));
    assert_eq!(after_of("0042"), Some(42));
    assert_eq!(after_of("4294967294"), Some(4294967294));
}

#[test]
fn anything_else_follows_the_start_of_the_level() {
    for word in ["-", "start", "-1", "1.0", "+", "4294967296", "99999999999999999999", "x1", "1x"] {
        assert_eq!(after_of(word), Some(LEVEL_REF));
    }
    assert_eq!(after_of("4294967295"), Some(LEVEL_REF));
}

#[test]
fn every_event_has_the_number_zero() {
    let level = read("@spawn-enemy basic 0 0 0 -\n@spawn-enemy basic 0 0 0 -\n@spawn-enemy basic 0 0 0 0\n").unwrap();
    assert_eq!(level.events.iter().map(|e| e.id).collect::<Vec<_>>(), vec![0, 0, 0]);
    assert!(level.events.iter().all(|e| e.time.is_none()));
    assert_eq!(level.events[0].ref_evt.map(|r| r.1), Some(Duration { nanos: 0 }));
}
