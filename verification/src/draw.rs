//! What the host needs to draw the game: the window sizes, the place of
//! each character and of each sprite on its sheet, and the arithmetic of
//! one pixel. The drawing itself is the host's.

use vstd::prelude::*;
use crate::coords::{Dimensions, Point, Rect};
use crate::enemy::{Enemy, EnemyType};
use crate::game::N_SIZES;
use crate::player::Player;
use crate::projectile::{ProjType, Projectile};
use crate::time::Timestamp;

verus! {

/// The side of a sprite on its sheet, in pixels.
pub const SPRITE_SIDE: u32 = 8;

/// The numbers that the layout of the window rests on.
#[derive(Debug)]
pub struct DrawConstants {
    /// In quarters of the width of the window, where the interface begins.
    pub interface_begin4: u32,
    /// The window sizes that can be chosen. The last is that of the screen.
    pub sizes: [Dimensions<u32>; 3],
}

/// The numbers that the layout of the window rests on.
pub open spec fn spec_draw_constants() -> DrawConstants {
    DrawConstants {
        interface_begin4: 3,
        sizes: [
            Dimensions { w: 1280u32, h: 720u32 },
            Dimensions { w: 1600u32, h: 900u32 },
            Dimensions { w: 1920u32, h: 1080u32 },
        ],
    }
}

/// The numbers that the layout of the window rests on.
#[verifier::when_used_as_spec(spec_draw_constants)]
pub fn draw_constants() -> (constants: DrawConstants)
    ensures
        constants == spec_draw_constants(),
{
    DrawConstants {
        interface_begin4: 3,
        sizes: [
            Dimensions { w: 1280, h: 720 },
            Dimensions { w: 1600, h: 900 },
            Dimensions { w: 1920, h: 1080 },
        ],
    }
}

/// What the host asks of the window when a size is chosen.
#[derive(Clone, Copy, Debug, PartialEq, Eq, Structural)]
pub struct WindowRequest {
    /// Whether the window is to fill the screen, without a border.
    pub fullscreen: bool,
    /// The size that the window is to have.
    pub size: Dimensions<u32>,
}

/// What to ask of the window for the size of the given index: the size of
/// that index, filling the screen for the last one.
pub fn request_window_resize(index: u8) -> (request: WindowRequest)
    requires
        index < N_SIZES,
    ensures
        request.fullscreen == (index == N_SIZES - 1),
        request.size == spec_draw_constants().sizes[index as int],
{
    WindowRequest { fullscreen: index == N_SIZES - 1, size: draw_constants().sizes[index as usize] }
}

/// The rows of the font sheet below the letters and the digits.
pub open spec fn font_row(row: int) -> Seq<char> {
    if row == 3 {
        seq!['`', '~', '!', '@', '#', '$', '%', '^', '&', '*', '\'', '"', '.']
    } else if row == 4 {
        seq!['(', ')', '[', ']', '{', '}', '?', '/', '\\', '|', ':', ';', ',']
    } else if row == 5 {
        seq!['-', '+', '=', '_', '<', '>']
    } else {
        Seq::empty()
    }
}

/// The first place of `c` in `row` at or after `from`.
pub open spec fn position_from(row: Seq<char>, c: char, from: int) -> Option<int>
    decreases row.len() - from,
{
    if from < 0 || from >= row.len() {
        None
    } else if row[from] == c {
        Some(from)
    } else {
        position_from(row, c, from + 1)
    }
}

/// The column and the row of the character on the font sheet, if the font
/// has it: the letters `A` to `M` in the first row, `N` to `Z` in the
/// second, the digits in the third, and the other signs as `font_row` has
/// them.
pub open spec fn spec_char_position(c: char) -> Option<(u32, u32)> {
    if 'A' <= c <= 'M' {
        Some(((c as u32 - 'A' as u32) as u32, 0u32))
    } else if 'N' <= c <= 'Z' {
        Some(((c as u32 - 'N' as u32) as u32, 1u32))
    } else if '0' <= c <= '9' {
        Some(((c as u32 - '0' as u32) as u32, 2u32))
    } else if position_from(font_row(3), c, 0) is Some {
        Some((position_from(font_row(3), c, 0)->0 as u32, 3u32))
    } else if position_from(font_row(4), c, 0) is Some {
        Some((position_from(font_row(4), c, 0)->0 as u32, 4u32))
    } else if position_from(font_row(5), c, 0) is Some {
        Some((position_from(font_row(5), c, 0)->0 as u32, 5u32))
    } else {
        None
    }
}

/// The first place of `c` in `row`.
fn position<const N: usize>(row: &[char; N], c: char) -> (place: Option<u32>)
    requires
        N <= 64,
    ensures
        place.is_some() == position_from(row@, c, 0).is_some(),
        place.is_some() ==> place->0 == position_from(row@, c, 0)->0,
{
    let mut i: usize = 0;
    while i < N
        invariant
            i <= N,
            N <= 64,
            row@.len() == N,
            position_from(row@, c, 0) == position_from(row@, c, i as int),
        decreases N - i,
    {
        if row[i] == c {
            return Some(i as u32);
        }
        i = i + 1;
    }
    None
}

/// The column and the row of the character on the font sheet, if the font
/// has it.
#[verifier::when_used_as_spec(spec_char_position)]
pub fn char_position(c: char) -> (place: Option<(u32, u32)>)
    ensures
        place == spec_char_position(c),
{
    if 'A' <= c && c <= 'M' {
        return Some((c as u32 - 'A' as u32, 0));
    }
    if 'N' <= c && c <= 'Z' {
        return Some((c as u32 - 'N' as u32, 1));
    }
    if '0' <= c && c <= '9' {
        return Some((c as u32 - '0' as u32, 2));
    }
    let fourth_line: [char; 13] = ['`', '~', '!', '@', '#', '$', '%', '^', '&', '*', '\'', '"', '.'];
    let fifth_line: [char; 13] = ['(', ')', '[', ']', '{', '}', '?', '/', '\\', '|', ':', ';', ','];
    let sixth_line: [char; 6] = ['-', '+', '=', '_', '<', '>'];
    match position(&fourth_line, c) {
        Some(col) => {
            return Some((col, 3));
        },
        None => {},
    }
    match position(&fifth_line, c) {
        Some(col) => {
            return Some((col, 4));
        },
        None => {},
    }
    match position(&sixth_line, c) {
        Some(col) => Some((col, 5)),
        None => None,
    }
}

/// Where a sprite is on its sheet, in sprites from the left and from the
/// top, and its size in pixels.
#[derive(Clone, Copy, Debug, PartialEq, Eq, Structural)]
pub struct SpriteCoords {
    pub sheet_pos: Point<u32>,
    pub dims: Dimensions<u32>,
}

/// The sprite at the given place of the sheet.
pub open spec fn sprite_at(x: u32, y: u32) -> SpriteCoords {
    SpriteCoords {
        sheet_pos: Point { x, y },
        dims: Dimensions { w: SPRITE_SIDE, h: SPRITE_SIDE },
    }
}

/// The sprite at the given place of the sheet.
fn sprite(x: u32, y: u32) -> (coords: SpriteCoords)
    ensures
        coords == sprite_at(x, y),
{
    SpriteCoords { sheet_pos: Point { x, y }, dims: Dimensions { w: SPRITE_SIDE, h: SPRITE_SIDE } }
}

impl Player {
    /// The sprite of the player at `now`: another one while nothing can hit
    /// it.
    pub fn sprite_coords(&self, now: Timestamp) -> (coords: SpriteCoords)
        ensures
            coords == if self.spec_immunity_over(now) {
                sprite_at(1, 0)
            } else {
                sprite_at(1, 1)
            },
    {
        if self.immunity_over(now) {
            sprite(1, 0)
        } else {
            sprite(1, 1)
        }
    }

    /// The sprite of the hit box of the player.
    pub fn sprite_coords_hit(&self) -> (coords: SpriteCoords)
        ensures
            coords == sprite_at(0, 0),
    {
        sprite(0, 0)
    }
}

impl Enemy {
    /// The sprite of the enemy: one for each kind.
    pub fn sprite_coords(&self) -> (coords: SpriteCoords)
        ensures
            coords == match self.variant {
                EnemyType::Basic => sprite_at(2, 0),
                EnemyType::Sniper => sprite_at(3, 0),
            },
    {
        match self.variant {
            EnemyType::Basic => sprite(2, 0),
            EnemyType::Sniper => sprite(3, 0),
        }
    }
}

impl Projectile {
    /// The sprite of the projectile: one for each kind.
    pub fn sprite_coords(&self) -> (coords: SpriteCoords)
        ensures
            coords == match self.variant {
                ProjType::Basic => sprite_at(2, 1),
                ProjType::Aimed => sprite_at(3, 1),
                ProjType::PlayerShoot => sprite_at(0, 1),
            },
    {
        match self.variant {
            ProjType::Basic => sprite(2, 1),
            ProjType::Aimed => sprite(3, 1),
            ProjType::PlayerShoot => sprite(0, 1),
        }
    }
}

} // verus!
