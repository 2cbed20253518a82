use holy_bullet_hell::coords::{Dimensions, Point};
use holy_bullet_hell::draw::{
    char_position, draw_constants, request_window_resize, SpriteCoords, WindowRequest, SPRITE_SIDE,
};
use holy_bullet_hell::enemy::{Enemy, EnemyType};
use holy_bullet_hell::player::Player;
use holy_bullet_hell::projectile::{ProjType, Projectile};
use holy_bullet_hell::coords::Vector;
use holy_bullet_hell::time::Timestamp;

fn sprite(x: u32, y: u32) -> SpriteCoords {
    SpriteCoords { sheet_pos: Point { x, y }, dims: Dimensions { w: 8, h: 8 } }
}

#[test]
fn the_window_sizes() {
    let constants = draw_constants();
    assert_eq!(constants.interface_begin4, 3);
    assert_eq!(
        constants.sizes,
        [
            Dimensions { w: 1280, h: 720 },
            Dimensions { w: 1600, h: 900 },
            Dimensions { w: 1920, h: 1080 }
        ]
    );
}

#[test]
fn the_last_window_size_fills_the_screen() {
    assert_eq!(
        request_window_resize(0),
        WindowRequest { fullscreen: false, size: Dimensions { w: 1280, h: 720 } }
    );
    assert_eq!(
        request_window_resize(1),
        WindowRequest { fullscreen: false, size: Dimensions { w: 1600, h: 900 } }
    );
    assert_eq!(
        request_window_resize(2),
        WindowRequest { fullscreen: true, size: Dimensions { w: 1920, h: 1080 } }
    );
}

#[test]
fn letters_and_digits_on_the_font_sheet() {
    assert_eq!(char_position('A'), Some((0, 0)));
    assert_eq!(char_position('B'), Some((1, 0)));
    assert_eq!(char_position('M'), Some((12, 0)));
    assert_eq!(char_position('N'), Some((0, 1)));
    assert_eq!(char_position('Z'), Some((12, 1)));
    assert_eq!(char_position('0'), Some((0, 2)));
    assert_eq!(char_position('7'), Some((7, 2)));
    assert_eq!(char_position('9'), Some((9, 2)));
}

#[test]
fn signs_on_the_font_sheet() {
    let rows = ["`~!@#$%^&*'\".", "()[]{}?/\\|:;,", "-+=_<>"];
    for (row, signs) in rows.iter().enumerate() {
        for (col, c) in signs.chars().enumerate() {
            assert_eq!(char_position(c), Some((col as u32, row as u32 + 3)));
        }
    }
    assert_eq!(char_position('\''), Some((10, 3)));
    assert_eq!(char_position('\\'), Some((8, 4)));
    assert_eq!(char_position('>'), Some((5, 5)));
}

#[test]
fn every_place_of_the_font_sheet_has_one_character() {
    let mut seen = std::collections::HashSet::new();
    for code in 0..0x250u32 {
        if let Some(c) = char::from_u32(code) {
            if let Some(place) = char_position(c) {
                assert!(seen.insert(place));
            }
        }
    }
    assert_eq!(seen.len(), 13 + 13 + 10 + 13 + 13 + 6);
}

#[test]
fn the_font_has_no_other_characters() {
    for c in ['a', 'z', ' ', '\n', '\0', 'é', 'Ω', '٣', '\u{10ffff}'] {
        assert_eq!(char_position(c), None);
    }
}

#[test]
fn the_sprite_of_the_player_shows_its_immunity() {
    let mut player = Player::new();
    assert_eq!(player.sprite_coords(Timestamp { nanos: 0 }), sprite(1, 0));
    player.take_hit(1, Timestamp { nanos: 10 });
    assert_eq!(player.sprite_coords(Timestamp { nanos: 10 }), sprite(1, 1));
    assert_eq!(player.sprite_coords(Timestamp { nanos: 2_000_000_009 }), sprite(1, 1));
    assert_eq!(player.sprite_coords(Timestamp { nanos: 2_000_000_010 }), sprite(1, 0));
    assert_eq!(player.sprite_coords_hit(), sprite(0, 0));
    assert_eq!(SPRITE_SIDE, 8);
}

#[test]
fn the_sprites_of_the_enemies() {
    let basic = Enemy::spawn(Point { x: 0, y: 0 }, EnemyType::Basic);
    let sniper = Enemy::spawn(Point { x: 0, y: 0 }, EnemyType::Sniper);
    assert_eq!(basic.sprite_coords(), sprite(2, 0));
    assert_eq!(sniper.sprite_coords(), sprite(3, 0));
}

#[test]
fn the_sprites_of_the_projectiles() {
    let of = |variant| Projectile { pos: Point { x: 0, y: 0 }, vel: Vector { x: 0, y: 0 }, variant };
    assert_eq!(of(ProjType::Basic).sprite_coords(), sprite(2, 1));
    assert_eq!(of(ProjType::Aimed).sprite_coords(), sprite(3, 1));
    assert_eq!(of(ProjType::PlayerShoot).sprite_coords(), sprite(0, 1));
}
