//! The text of a level.
//!
//! A level is written in lines. A line that begins with `$` gives a property
//! of the level: the only one there is, `title`, is followed by one white
//! space character and the title, which runs to the end of the line. A line
//! that begins with `@` gives an event, in words that white space parts:
//!
//! ```text
//! @spawn-enemy <kind> <seconds> <x> <y> <after>
//! ```
//!
//! where the kind is `basic` or `sniper`, the place is in pixels, and
//! `<after>` is the number of the event that this one follows by the given
//! seconds; anything that is not such a number (a dash will do) makes it
//! follow the start of the level. Words after these are not read, nor are
//! lines that begin with anything else.
//!
//! A number of seconds or pixels is written in decimal digits, with a sign
//! and a point where they are needed: `12`, `-3.5`, `.25`. Seconds are read
//! to the nanosecond and pixels to the position unit; digits beyond that are
//! dropped.

use vstd::prelude::*;
use crate::coords::Point;
use crate::enemy::EnemyType;
use crate::events::{Event, EventType, LEVEL_REF};
use crate::time::Duration;

verus! {

/// The digits after the point that a number of seconds is read to.
pub const SECOND_PLACES: u32 = 9;

/// The digits after the point that a number of pixels is read to.
pub const PIXEL_PLACES: u32 = 10;

/// A level as its text gives it.
pub struct LevelView {
    pub name: Seq<char>,
    pub events: Seq<Event>,
}

/// Whether a character is white space.
pub open spec fn is_space(c: char) -> bool {
    let n = c as u32;
    ||| 0x09 <= n <= 0x0d
    ||| n == 0x20
    ||| n == 0x85
    ||| n == 0xa0
    ||| n == 0x1680
    ||| 0x2000 <= n <= 0x200a
    ||| n == 0x2028
    ||| n == 0x2029
    ||| n == 0x202f
    ||| n == 0x205f
    ||| n == 0x3000
}

/// Whether a character is a decimal digit.
pub open spec fn is_digit(c: char) -> bool {
    '0' <= c <= '9'
}

/// The number that a decimal digit stands for.
pub open spec fn digit(c: char) -> int {
    c as u32 - '0' as u32
}

/// The first place at or after `from` and before `end` where the text has
/// the character `c`; `end` if there is none.
pub open spec fn find_char(text: Seq<char>, from: int, end: int, c: char) -> int
    decreases end - from,
{
    if from >= end {
        end
    } else if text[from] == c {
        from
    } else {
        find_char(text, from + 1, end, c)
    }
}

/// The first place at or after `from` and before `end` where the text has
/// something else than white space, if `spaces`, or has white space, if
/// not; `end` if there is none.
pub open spec fn skip_while(text: Seq<char>, from: int, end: int, spaces: bool) -> int
    decreases end - from,
{
    if from >= end {
        end
    } else if is_space(text[from]) != spaces {
        from
    } else {
        skip_while(text, from + 1, end, spaces)
    }
}

/// Where the first word at or after `from` begins; `end` if there is none.
pub open spec fn word_start(text: Seq<char>, from: int, end: int) -> int {
    skip_while(text, from, end, true)
}

/// Where the word that begins at `start` ends.
pub open spec fn word_end(text: Seq<char>, start: int, end: int) -> int {
    skip_while(text, start, end, false)
}

/// Ten to the power of `n`.
pub open spec fn pow10(n: nat) -> int
    decreases n,
{
    if n == 0 {
        1
    } else {
        10 * pow10((n - 1) as nat)
    }
}

/// The number that the digits from `a` to `b` are.
pub open spec fn whole(text: Seq<char>, a: int, b: int) -> int
    decreases b - a,
{
    if a >= b {
        0
    } else {
        whole(text, a, b - 1) * 10 + digit(text[b - 1])
    }
}

/// The number that the first `places` digits from `a` to `b` are, with
/// zeros for those that are missing.
pub open spec fn fraction(text: Seq<char>, a: int, b: int, places: nat) -> int
    decreases places,
{
    if places == 0 {
        0
    } else {
        (if a < b {
            digit(text[a])
        } else {
            0
        }) * pow10((places - 1) as nat) + fraction(text, a + 1, b, (places - 1) as nat)
    }
}

/// Whether the text has nothing but digits from `a` to `b`.
pub open spec fn all_digits(text: Seq<char>, a: int, b: int) -> bool {
    forall|i: int| a <= i < b ==> is_digit(#[trigger] text[i])
}

/// The number that the word from `a` to `b` is, in units of which ten to the
/// power of `places` make one: an optional sign, digits, and optionally a
/// point and more digits, with a digit on at least one side of the point.
/// Nothing where the word is not written so, or the number is more than an
/// `i64` holds.
pub open spec fn decimal(text: Seq<char>, a: int, b: int, places: nat) -> Option<i64> {
    let signed = a < b && (text[a] == '-' || text[a] == '+');
    let negative = a < b && text[a] == '-';
    let body = if signed {
        a + 1
    } else {
        a
    };
    let point = find_char(text, body, b, '.');
    let after = if point < b {
        point + 1
    } else {
        b
    };
    if !all_digits(text, body, point) || !all_digits(text, after, b) || (point - body) + (b
        - after) <= 0 {
        None
    } else {
        let size = whole(text, body, point) * pow10(places) + fraction(text, after, b, places);
        let value = if negative {
            -size
        } else {
            size
        };
        if i64::MIN <= value <= i64::MAX {
            Some(value as i64)
        } else {
            None
        }
    }
}

/// The number that the word from `a` to `b` is: an optional plus sign and
/// digits, at least one. Nothing where the word is not written so, or the
/// number is more than a `u32` holds.
pub open spec fn unsigned(text: Seq<char>, a: int, b: int) -> Option<u32> {
    let body = if a < b && text[a] == '+' {
        a + 1
    } else {
        a
    };
    if body >= b || !all_digits(text, body, b) || whole(text, body, b) > u32::MAX {
        None
    } else {
        Some(whole(text, body, b) as u32)
    }
}

/// The word `spawn-enemy`.
pub open spec fn spawn_word() -> Seq<char> {
    seq!['s', 'p', 'a', 'w', 'n', '-', 'e', 'n', 'e', 'm', 'y']
}

/// The word `basic`.
pub open spec fn basic_word() -> Seq<char> {
    seq!['b', 'a', 's', 'i', 'c']
}

/// The word `sniper`.
pub open spec fn sniper_word() -> Seq<char> {
    seq!['s', 'n', 'i', 'p', 'e', 'r']
}

/// The word `title`.
pub open spec fn title_word() -> Seq<char> {
    seq!['t', 'i', 't', 'l', 'e']
}

/// The kind of enemy that the word from `a` to `b` names.
pub open spec fn enemy_kind(text: Seq<char>, a: int, b: int) -> Option<EnemyType> {
    if text.subrange(a, b) == basic_word() {
        Some(EnemyType::Basic)
    } else if text.subrange(a, b) == sniper_word() {
        Some(EnemyType::Sniper)
    } else {
        None
    }
}

/// The event that a line gives, from behind its `@` to its end at `end`.
pub open spec fn event_of_line(text: Seq<char>, from: int, end: int) -> Option<Event> {
    let a0 = word_start(text, from, end);
    let b0 = word_end(text, a0, end);
    let a1 = word_start(text, b0, end);
    let b1 = word_end(text, a1, end);
    let a2 = word_start(text, b1, end);
    let b2 = word_end(text, a2, end);
    let a3 = word_start(text, b2, end);
    let b3 = word_end(text, a3, end);
    let a4 = word_start(text, b3, end);
    let b4 = word_end(text, a4, end);
    let a5 = word_start(text, b4, end);
    let b5 = word_end(text, a5, end);
    if text.subrange(a0, b0) != spawn_word() || a5 >= end {
        None
    } else {
        match (
            enemy_kind(text, a1, b1),
            decimal(text, a2, b2, SECOND_PLACES as nat),
            decimal(text, a3, b3, PIXEL_PLACES as nat),
            decimal(text, a4, b4, PIXEL_PLACES as nat),
        ) {
            (Some(kind), Some(seconds), Some(x), Some(y)) => if seconds < 0 {
                None
            } else {
                Some(
                    Event {
                        id: 0,
                        time: None,
                        ref_evt: Some(
                            (
                                match unsigned(text, a5, b5) {
                                    Some(id) => id,
                                    None => LEVEL_REF,
                                },
                                Duration { nanos: seconds as u64 },
                            ),
                        ),
                        variant: EventType::_SpawnEnemy(Point { x, y }, kind),
                    },
                )
            },
            _ => None,
        }
    }
}

/// The title that a line gives, from behind its `$` to its end at `end`.
pub open spec fn title_of_line(text: Seq<char>, from: int, end: int) -> Option<Seq<char>> {
    let key_end = word_end(text, from, end);
    if key_end >= end || text.subrange(from, key_end) != title_word() {
        None
    } else {
        Some(text.subrange(key_end + 1, end))
    }
}

/// The level that the lines from `from` on give, after those before them
/// gave `so_far`.
pub open spec fn level_of_lines(text: Seq<char>, from: int, so_far: LevelView) -> Option<LevelView>
    decreases text.len() - from,
{
    if from < 0 || from >= text.len() {
        Some(so_far)
    } else {
        let end = find_char(text, from, text.len() as int, '\n');
        let with_line = if text[from] == '$' {
            match title_of_line(text, from + 1, end) {
                Some(name) => Some(LevelView { name, ..so_far }),
                None => None,
            }
        } else if text[from] == '@' {
            match event_of_line(text, from + 1, end) {
                Some(event) => Some(LevelView { events: so_far.events.push(event), ..so_far }),
                None => None,
            }
        } else {
            Some(so_far)
        };
        if with_line is None {
            None
        } else if from <= end < text.len() {
            level_of_lines(text, end + 1, with_line->0)
        } else {
            with_line
        }
    }
}

/// The level that a text gives: its title, empty if it gives none and the
/// last if it gives several, and its events in the order of their lines.
/// Nothing where a line that begins with `$` or `@` is not written as such
/// a line is to be.
pub open spec fn level_of_text(text: Seq<char>) -> Option<LevelView> {
    level_of_lines(text, 0, LevelView { name: Seq::empty(), events: Seq::empty() })
}

/// The largest size of a number that an `i64` holds: that of the least.
pub const MAX_SIZE: u128 = 0x8000_0000_0000_0000;

/// Whether a character is white space.
fn space(c: char) -> (white: bool)
    ensures
        white == is_space(c),
{
    let n = c as u32;
    (0x09 <= n && n <= 0x0d) || n == 0x20 || n == 0x85 || n == 0xa0 || n == 0x1680 || (0x2000 <= n
        && n <= 0x200a) || n == 0x2028 || n == 0x2029 || n == 0x202f || n == 0x205f || n == 0x3000
}

/// The first place of `c` at or after `from` and before `end`.
fn find(text: &[char], from: usize, end: usize, c: char) -> (at: usize)
    requires
        from <= end <= text@.len(),
    ensures
        at == find_char(text@, from as int, end as int, c),
        from <= at <= end,
        at < end ==> text@[at as int] == c,
{
    let mut i = from;
    while i < end
        invariant
            from <= i <= end <= text@.len(),
            find_char(text@, from as int, end as int, c) == find_char(text@, i as int, end as int, c),
        decreases end - i,
    {
        if text[i] == c {
            return i;
        }
        i = i + 1;
    }
    end
}

/// The first place at or after `from` and before `end` that ends a run of
/// white space, if `spaces`, or of anything else.
fn skip(text: &[char], from: usize, end: usize, spaces: bool) -> (at: usize)
    requires
        from <= end <= text@.len(),
    ensures
        at == skip_while(text@, from as int, end as int, spaces),
        from <= at <= end,
{
    let mut i = from;
    while i < end
        invariant
            from <= i <= end <= text@.len(),
            skip_while(text@, from as int, end as int, spaces) == skip_while(
                text@,
                i as int,
                end as int,
                spaces,
            ),
        decreases end - i,
    {
        if space(text[i]) != spaces {
            return i;
        }
        i = i + 1;
    }
    end
}

/// Whether the text from `a` to `b` is the given word.
fn word_is<const N: usize>(text: &[char], a: usize, b: usize, word: &[char; N]) -> (same: bool)
    requires
        a <= b <= text@.len(),
    ensures
        same == (text@.subrange(a as int, b as int) == word@),
{
    if b - a != N {
        assert(text@.subrange(a as int, b as int).len() != word@.len());
        return false;
    }
    let mut i: usize = 0;
    while i < N
        invariant
            i <= N,
            b - a == N,
            a <= b <= text@.len(),
            word@.len() == N,
            forall|k: int| 0 <= k < i ==> text@[a + k] == word@[k],
        decreases N - i,
    {
        if text[a + i] != word[i] {
            return false;
        }
        i = i + 1;
    }
    assert(text@.subrange(a as int, b as int) =~= word@);
    true
}

/// Ten to the power of `n`.
fn power_of_ten(n: u32) -> (p: u128)
    requires
        n <= 18,
    ensures
        p == pow10(n as nat),
        1 <= p <= 1_000_000_000_000_000_000,
{
    let mut p: u128 = 1;
    let mut k: u32 = 0;
    proof {
        lemma_pow10_18();
    }
    while k < n
        invariant
            k <= n <= 18,
            p == pow10(k as nat),
            1 <= p,
            p * pow10((18 - k) as nat) == 1_000_000_000_000_000_000,
        decreases n - k,
    {
        proof {
            assert(p * (10 * pow10((18 - k - 1) as nat)) == (p * 10) * pow10((18 - k - 1) as nat))
                by (nonlinear_arith);
            lemma_pow10_positive((18 - k - 1) as nat);
            assert(p * 10 <= (p * 10) * pow10((18 - k - 1) as nat)) by (nonlinear_arith)
                requires
                    p >= 1,
                    pow10((18 - k - 1) as nat) >= 1,
            ;
        }
        p = p * 10;
        k = k + 1;
    }
    proof {
        lemma_pow10_positive((18 - k) as nat);
        assert(p <= p * pow10((18 - k) as nat)) by (nonlinear_arith)
            requires
                p >= 1,
                pow10((18 - k) as nat) >= 1,
        ;
    }
    p
}

/// A power of ten is at least one.
pub proof fn lemma_pow10_positive(n: nat)
    ensures
        pow10(n) >= 1,
    decreases n,
{
    if n > 0 {
        lemma_pow10_positive((n - 1) as nat);
    }
}

/// Ten to the power of eighteen.
proof fn lemma_pow10_18()
    ensures
        pow10(18) == 1_000_000_000_000_000_000,
{
    reveal_with_fuel(pow10, 19);
}

/// More digits make no smaller a number.
proof fn lemma_whole_grows(text: Seq<char>, a: int, k: int, b: int)
    requires
        a <= k <= b,
        all_digits(text, a, b),
    ensures
        0 <= whole(text, a, k) <= whole(text, a, b),
    decreases b - k,
{
    lemma_whole_nonnegative(text, a, k);
    if k < b {
        lemma_whole_grows(text, a, k, b - 1);
    }
}

/// Digits make no negative number.
proof fn lemma_whole_nonnegative(text: Seq<char>, a: int, b: int)
    requires
        all_digits(text, a, b),
    ensures
        0 <= whole(text, a, b),
    decreases b - a,
{
    if a < b {
        lemma_whole_nonnegative(text, a, b - 1);
    }
}

/// The digits behind the point make a number from zero to just under one.
proof fn lemma_fraction_bounds(text: Seq<char>, a: int, b: int, places: nat)
    requires
        all_digits(text, a, b),
    ensures
        0 <= fraction(text, a, b, places) < pow10(places),
    decreases places,
{
    if places > 0 {
        lemma_fraction_bounds(text, a + 1, b, (places - 1) as nat);
        lemma_pow10_positive((places - 1) as nat);
        let d = if a < b {
            digit(text[a])
        } else {
            0
        };
        assert(0 <= d * pow10((places - 1) as nat) <= 9 * pow10((places - 1) as nat))
            by (nonlinear_arith)
            requires
                0 <= d <= 9,
                pow10((places - 1) as nat) >= 1,
        ;
    }
}

/// Where no digit is left behind the point, what is missing is zero.
proof fn lemma_fraction_empty(text: Seq<char>, a: int, b: int, places: nat)
    requires
        a >= b,
    ensures
        fraction(text, a, b, places) == 0,
    decreases places,
{
    if places > 0 {
        lemma_fraction_empty(text, a + 1, b, (places - 1) as nat);
        assert(0 * pow10((places - 1) as nat) == 0) by (nonlinear_arith);
    }
}

/// The number that the digits from `body` to `point` are, if they are
/// digits and the number is no more than the largest size.
fn read_whole(text: &[char], body: usize, point: usize) -> (number: Option<u128>)
    requires
        body <= point <= text@.len(),
    ensures
        match number {
            Some(value) => all_digits(text@, body as int, point as int) && value == whole(
                text@,
                body as int,
                point as int,
            ) && value <= MAX_SIZE,
            None => !all_digits(text@, body as int, point as int) || whole(
                text@,
                body as int,
                point as int,
            ) > MAX_SIZE,
        },
{
    let mut value: u128 = 0;
    let mut i = body;
    while i < point
        invariant
            body <= i <= point <= text@.len(),
            all_digits(text@, body as int, i as int),
            value == whole(text@, body as int, i as int),
            value <= MAX_SIZE,
        decreases point - i,
    {
        let c = text[i];
        if !('0' <= c && c <= '9') {
            return None;
        }
        value = value * 10 + (c as u32 - '0' as u32) as u128;
        if value > MAX_SIZE {
            proof {
                if all_digits(text@, body as int, point as int) {
                    lemma_whole_grows(text@, body as int, i as int + 1, point as int);
                }
            }
            return None;
        }
        i = i + 1;
    }
    Some(value)
}

/// The number that the first `places` digits from `after` to `b` are, with
/// zeros for those that are missing, if there are only digits.
fn read_fraction(text: &[char], after: usize, b: usize, places: u32) -> (number: Option<u128>)
    requires
        after <= b <= text@.len(),
        places <= 18,
    ensures
        match number {
            Some(value) => all_digits(text@, after as int, b as int) && value == fraction(
                text@,
                after as int,
                b as int,
                places as nat,
            ) && value < pow10(places as nat),
            None => !all_digits(text@, after as int, b as int),
        },
{
    let mut frac: u128 = 0;
    let mut taken: u32 = 0;
    let mut j = after;
    proof {
        lemma_pow10_18();
    }
    while j < b
        invariant
            after <= j <= b <= text@.len(),
            taken <= places <= 18,
            taken <= j - after,
            taken < places ==> taken == j - after,
            all_digits(text@, after as int, j as int),
            0 <= frac < pow10(taken as nat),
            pow10(18) == 1_000_000_000_000_000_000,
            fraction(text@, after as int, b as int, places as nat) == frac * pow10(
                (places - taken) as nat,
            ) + fraction(text@, after + taken, b as int, (places - taken) as nat),
        decreases b - j,
    {
        let c = text[j];
        if !('0' <= c && c <= '9') {
            return None;
        }
        if taken < places {
            let d = (c as u32 - '0' as u32) as u128;
            proof {
                let rest = (places - taken - 1) as nat;
                let tail = fraction(text@, after + taken + 1, b as int, rest);
                assert(fraction(text@, after + taken, b as int, (places - taken) as nat) == d
                    * pow10(rest) + tail);
                assert(frac * (10 * pow10(rest)) + d * pow10(rest) == (frac * 10 + d) * pow10(rest))
                    by (nonlinear_arith);
                lemma_pow10_grows((taken + 1) as nat, 18);
            }
            frac = frac * 10 + d;
            taken = taken + 1;
        }
        j = j + 1;
    }
    proof {
        if taken < places {
            lemma_fraction_empty(text@, after + taken, b as int, (places - taken) as nat);
        }
        lemma_pow10_grows(taken as nat, 18);
        lemma_pow10_positive((places - taken) as nat);
        lemma_pow10_sum(taken as nat, (places - taken) as nat);
        lemma_pow10_grows(places as nat, 18);
        assert(frac * pow10((places - taken) as nat) < pow10(taken as nat) * pow10(
            (places - taken) as nat,
        )) by (nonlinear_arith)
            requires
                0 <= frac < pow10(taken as nat),
                pow10((places - taken) as nat) >= 1,
        ;
        assert(0 <= frac * pow10((places - taken) as nat)) by (nonlinear_arith)
            requires
                0 <= frac,
                pow10((places - taken) as nat) >= 1,
        ;
    }
    let padding = power_of_ten(places - taken);
    Some(frac * padding)
}

/// The number that the word from `a` to `b` is, in units of which ten to the
/// power of `places` make one.
fn parse_decimal(text: &[char], a: usize, b: usize, places: u32) -> (number: Option<i64>)
    requires
        a <= b <= text@.len(),
        places <= 18,
    ensures
        number == decimal(text@, a as int, b as int, places as nat),
{
    let negative = a < b && text[a] == '-';
    let body = if a < b && (text[a] == '-' || text[a] == '+') {
        a + 1
    } else {
        a
    };
    let point = find(text, body, b, '.');
    let after = if point < b {
        point + 1
    } else {
        b
    };
    if (point - body) + (b - after) == 0 {
        return None;
    }
    let unit = power_of_ten(places);
    let int_part = match read_whole(text, body, point) {
        Some(value) => value,
        None => {
            proof {
                if all_digits(text@, body as int, point as int) && all_digits(
                    text@,
                    after as int,
                    b as int,
                ) {
                    lemma_fraction_bounds(text@, after as int, b as int, places as nat);
                    assert(whole(text@, body as int, point as int) * unit >= whole(
                        text@,
                        body as int,
                        point as int,
                    )) by (nonlinear_arith)
                        requires
                            whole(text@, body as int, point as int) >= 0,
                            unit >= 1,
                    ;
                }
            }
            return None;
        },
    };
    let frac_part = match read_fraction(text, after, b, places) {
        Some(value) => value,
        None => {
            return None;
        },
    };
    assert(int_part * unit <= MAX_SIZE * 1_000_000_000_000_000_000) by (nonlinear_arith)
        requires
            0 <= int_part <= MAX_SIZE,
            1 <= unit <= 1_000_000_000_000_000_000,
    ;
    let size: u128 = int_part * unit + frac_part;
    if negative {
        if size <= MAX_SIZE {
            Some((-(size as i128)) as i64)
        } else {
            None
        }
    } else {
        if size < MAX_SIZE {
            Some(size as i64)
        } else {
            None
        }
    }
}

/// A larger power of ten is no smaller.
proof fn lemma_pow10_grows(n: nat, m: nat)
    requires
        n <= m,
    ensures
        pow10(n) <= pow10(m),
    decreases m - n,
{
    if n < m {
        lemma_pow10_grows(n, (m - 1) as nat);
        lemma_pow10_positive((m - 1) as nat);
    }
}

/// Powers of ten multiply as their exponents add.
proof fn lemma_pow10_sum(n: nat, m: nat)
    ensures
        pow10(n) * pow10(m) == pow10(n + m),
    decreases n,
{
    if n == 0 {
        assert(1 * pow10(m) == pow10(m)) by (nonlinear_arith);
    } else {
        lemma_pow10_sum((n - 1) as nat, m);
        assert((10 * pow10((n - 1) as nat)) * pow10(m) == 10 * (pow10((n - 1) as nat) * pow10(m)))
            by (nonlinear_arith);
    }
}

/// The number that the word from `a` to `b` is.
#[verifier::loop_isolation(false)]
fn parse_unsigned(text: &[char], a: usize, b: usize) -> (number: Option<u32>)
    requires
        a <= b <= text@.len(),
    ensures
        number == unsigned(text@, a as int, b as int),
{
    let body = if a < b && text[a] == '+' {
        a + 1
    } else {
        a
    };
    if body >= b {
        return None;
    }
    let mut value: u64 = 0;
    let mut i = body;
    while i < b
        invariant
            body <= i <= b <= text@.len(),
            all_digits(text@, body as int, i as int),
            value == whole(text@, body as int, i as int),
            value <= u32::MAX,
        decreases b - i,
    {
        let c = text[i];
        if !('0' <= c && c <= '9') {
            return None;
        }
        value = value * 10 + (c as u32 - '0' as u32) as u64;
        if value > 0xffff_ffff {
            proof {
                if all_digits(text@, body as int, b as int) {
                    lemma_whole_grows(text@, body as int, i as int + 1, b as int);
                }
            }
            return None;
        }
        i = i + 1;
    }
    Some(value as u32)
}

/// The event that a line gives, from behind its `@` to its end at `end`.
fn parse_event_line(text: &[char], from: usize, end: usize) -> (event: Option<Event>)
    requires
        from <= end <= text@.len(),
    ensures
        event == event_of_line(text@, from as int, end as int),
{
    let a0 = skip(text, from, end, true);
    let b0 = skip(text, a0, end, false);
    let a1 = skip(text, b0, end, true);
    let b1 = skip(text, a1, end, false);
    let a2 = skip(text, b1, end, true);
    let b2 = skip(text, a2, end, false);
    let a3 = skip(text, b2, end, true);
    let b3 = skip(text, a3, end, false);
    let a4 = skip(text, b3, end, true);
    let b4 = skip(text, a4, end, false);
    let a5 = skip(text, b4, end, true);
    let b5 = skip(text, a5, end, false);
    let spawn: [char; 11] = ['s', 'p', 'a', 'w', 'n', '-', 'e', 'n', 'e', 'm', 'y'];
    let basic: [char; 5] = ['b', 'a', 's', 'i', 'c'];
    let sniper: [char; 6] = ['s', 'n', 'i', 'p', 'e', 'r'];
    if !word_is(text, a0, b0, &spawn) || a5 >= end {
        return None;
    }
    let kind = if word_is(text, a1, b1, &basic) {
        EnemyType::Basic
    } else if word_is(text, a1, b1, &sniper) {
        EnemyType::Sniper
    } else {
        return None;
    };
    let seconds = match parse_decimal(text, a2, b2, SECOND_PLACES) {
        Some(seconds) => seconds,
        None => {
            return None;
        },
    };
    let x = match parse_decimal(text, a3, b3, PIXEL_PLACES) {
        Some(x) => x,
        None => {
            return None;
        },
    };
    let y = match parse_decimal(text, a4, b4, PIXEL_PLACES) {
        Some(y) => y,
        None => {
            return None;
        },
    };
    if seconds < 0 {
        return None;
    }
    let after = match parse_unsigned(text, a5, b5) {
        Some(id) => id,
        None => LEVEL_REF,
    };
    Some(
        Event {
            id: 0,
            time: None,
            ref_evt: Some((after, Duration { nanos: seconds as u64 })),
            variant: EventType::_SpawnEnemy(Point { x, y }, kind),
        },
    )
}

/// The title that a line gives, from behind its `$` to its end at `end`.
fn parse_title_line(text: &[char], from: usize, end: usize) -> (title: Option<Vec<char>>)
    requires
        from <= end <= text@.len(),
    ensures
        title.is_some() == title_of_line(text@, from as int, end as int).is_some(),
        title.is_some() ==> title->0@ == title_of_line(text@, from as int, end as int)->0,
{
    let key_end = skip(text, from, end, false);
    let word: [char; 5] = ['t', 'i', 't', 'l', 'e'];
    if key_end >= end || !word_is(text, from, key_end, &word) {
        return None;
    }
    let mut name: Vec<char> = Vec::new();
    let mut i = key_end + 1;
    while i < end
        invariant
            key_end + 1 <= i <= end <= text@.len(),
            name@ == text@.subrange(key_end + 1, i as int),
        decreases end - i,
    {
        name.push(text[i]);
        proof {
            assert(text@.subrange(key_end + 1, i as int).push(text@[i as int]) =~= text@.subrange(
                key_end + 1,
                i + 1,
            ));
        }
        i = i + 1;
    }
    Some(name)
}

/// A level as its text gives it: its title and its events.
pub struct LevelText {
    pub name: Vec<char>,
    pub events: Vec<Event>,
}

impl View for LevelText {
    type V = LevelView;

    open spec fn view(&self) -> LevelView {
        LevelView { name: self.name@, events: self.events@ }
    }
}

/// Reads the text of a level. Nothing comes back where a line that begins
/// with `$` or `@` is not written as such a line is to be.
pub fn parse_level(text: &[char]) -> (level: Option<LevelText>)
    ensures
        level.is_some() == level_of_text(text@).is_some(),
        level.is_some() ==> level->0@ == level_of_text(text@)->0,
{
    let mut level = LevelText { name: Vec::new(), events: Vec::new() };
    let mut from: usize = 0;
    while from < text.len()
        invariant
            from <= text@.len(),
            level_of_text(text@) == level_of_lines(text@, from as int, level@),
        decreases text@.len() - from,
    {
        let end = find(text, from, text.len(), '\n');
        if text[from] == '$' {
            match parse_title_line(text, from + 1, end) {
                Some(name) => {
                    level.name = name;
                },
                None => {
                    return None;
                },
            }
        } else if text[from] == '@' {
            match parse_event_line(text, from + 1, end) {
                Some(event) => {
                    level.events.push(event);
                },
                None => {
                    return None;
                },
            }
        }
        if end >= text.len() {
            return Some(level);
        }
        from = end + 1;
    }
    Some(level)
}

} // verus!
