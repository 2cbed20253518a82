//! The sounds that the game asks its host to play.

use vstd::prelude::*;

verus! {

/// A sound of the game.
#[derive(Clone, Copy, Debug, PartialEq, Eq, Hash, Structural)]
pub enum SoundBase {
    PlayerShoot,
    _MainMenu,
    MenuSelect,
    MenuBack,
    MenuMove,
    _GameMusic,
}

} // verus!
