//! The game around a level: the keys that are down, the menus, the settings,
//! the clock readings of a frame, and the level that is being played.
//!
//! Nothing here opens a window, plays a sound or reads a clock. The host does
//! that: it hands each key and each clock reading to the game, and the game
//! answers with what the host is to do ([`HostActions`]).

use vstd::prelude::*;
use crate::cooldown::Cooldown;
use crate::coords::Dimensions;
use crate::events::Event;
use crate::level::{level_of_text, parse_level};
use crate::sound::SoundBase;
use crate::time::{Duration, Timestamp, NANOS_PER_SEC};
use crate::world::{TerminalState, World, WorldView};

verus! {

/// The number of window sizes that can be chosen.
pub const N_SIZES: u8 = 3;

/// The width of the arena: three quarters of the smallest window, 960
/// pixels.
pub const WORLD_WIDTH: i64 = 9_600_000_000_000;

/// The height of the arena: that of the smallest window, 720 pixels.
pub const WORLD_HEIGHT: i64 = 7_200_000_000_000;

/// The width of the smallest window, in pixels.
pub const BASE_WIDTH: u32 = 1280;

/// For how long a reading of the frame rate is shown: a tenth of a second.
pub const FPS_REFRESH_NANOS: u64 = 100_000_000;

/// What the game is doing.
#[derive(Debug, PartialEq, Eq, Clone, Copy, Structural)]
pub enum RunState {
    Playing,
    _Paused,
    Menu(MenuChoice),
    _GameOver,
    Quitting,
}

/// The entry of a menu that is selected.
#[derive(Debug, PartialEq, Eq, Clone, Copy, Structural)]
pub enum MenuChoice {
    /// Main menu.
    Play,
    /// Main menu.
    Options,
    /// Main menu.
    Quit,
    /// Menu of levels: the index of the level in the list.
    Level(u16),
    /// Menu of options.
    Resolution,
}

/// Whether a key went down or up.
#[derive(Debug, PartialEq, Eq, Clone, Copy, Structural)]
pub enum KeyState {
    Pressed,
    Released,
}

/// A key, as far as the game tells keys apart.
#[derive(Debug, PartialEq, Eq, Clone, Copy, Structural)]
pub enum Key {
    Escape,
    Enter,
    ArrowUp,
    ArrowDown,
    ArrowLeft,
    ArrowRight,
    /// A key that types the given character.
    Character(char),
    /// Any other key.
    Other,
}

/// The character whose key shoots.
pub const SHOOT_KEY: char = 'x';

/// The character whose key takes the next window size.
pub const NEXT_SIZE_KEY: char = ']';

/// The character whose key takes the previous window size.
pub const PREVIOUS_SIZE_KEY: char = '[';

/// What the host is to do after it handed a key to the game.
#[derive(Debug, PartialEq, Eq, Clone, Copy, Structural)]
pub struct HostActions {
    /// Leave the program.
    pub exit: bool,
    /// Play this sound.
    pub sound: Option<SoundBase>,
    /// Give the window the size of this index.
    pub resize: Option<u8>,
}

impl HostActions {
    /// Nothing to do.
    pub open spec fn spec_none() -> HostActions {
        HostActions { exit: false, sound: None, resize: None }
    }

    /// Nothing to do.
    #[verifier::when_used_as_spec(spec_none)]
    pub fn none() -> (actions: HostActions)
        ensures
            actions == HostActions::spec_none(),
    {
        HostActions { exit: false, sound: None, resize: None }
    }
}

/// A level: its number, its title and its script.
#[derive(Debug)]
pub struct Level {
    pub id: u32,
    pub name: Vec<char>,
    pub event_list: Vec<Event>,
}

/// What a level holds.
pub struct LevelData {
    pub id: u32,
    pub name: Seq<char>,
    pub events: Seq<Event>,
}

impl View for Level {
    type V = LevelData;

    open spec fn view(&self) -> LevelData {
        LevelData { id: self.id, name: self.name@, events: self.event_list@ }
    }
}

impl Clone for Level {
    fn clone(&self) -> (copy: Self)
        ensures
            copy@ == self@,
    {
        Level { id: self.id, name: self.name.clone(), event_list: self.event_list.clone() }
    }
}

impl PartialEq for Level {
    /// Two levels are the same level if they have the same number.
    fn eq(&self, other: &Self) -> (same: bool) {
        self.id == other.id
    }
}

impl vstd::std_specs::cmp::PartialEqSpecImpl for Level {
    open spec fn obeys_eq_spec() -> bool {
        true
    }

    open spec fn eq_spec(&self, other: &Self) -> bool {
        self.id == other.id
    }
}

/// What each of some levels holds.
pub open spec fn level_data(levels: Seq<Level>) -> Seq<LevelData> {
    Seq::new(levels.len(), |i: int| levels[i]@)
}

/// The number of the level that is added to a list of `n` levels: `n`, or
/// the largest number there is.
pub open spec fn next_level_id(n: int) -> u32 {
    if n > u32::MAX {
        u32::MAX
    } else {
        n as u32
    }
}

/// The first place at or after `from` in `levels` of a level whose number is
/// less than `id`; the length of `levels` if there is none.
pub open spec fn place_from(levels: Seq<LevelData>, id: u32, from: int) -> int
    decreases levels.len() - from,
{
    if from < 0 || from >= levels.len() {
        levels.len() as int
    } else if levels[from].id < id {
        from
    } else {
        place_from(levels, id, from + 1)
    }
}

/// The levels in the order of their numbers, the largest first; levels of
/// one number in the order in which they were.
pub open spec fn sorted_levels(levels: Seq<LevelData>) -> Seq<LevelData>
    decreases levels.len(),
{
    if levels.len() == 0 {
        Seq::empty()
    } else {
        let before = sorted_levels(levels.drop_last());
        before.insert(place_from(before, levels.last().id, 0), levels.last())
    }
}

/// Whether the numbers of the levels never grow along the list.
pub open spec fn is_descending(levels: Seq<LevelData>) -> bool {
    forall|i: int, j: int| 0 <= i <= j < levels.len() ==> levels[i].id >= levels[j].id
}

/// The place that `place_from` gives parts the list at the number: no
/// level before it has a smaller number, and the level there, if there is
/// one, has.
pub proof fn lemma_place_from(levels: Seq<LevelData>, id: u32, from: int)
    requires
        0 <= from <= levels.len(),
    ensures
        from <= place_from(levels, id, from) <= levels.len(),
        forall|k: int| from <= k < place_from(levels, id, from) ==> levels[k].id >= id,
        place_from(levels, id, from) < levels.len() ==> levels[place_from(levels, id, from)].id
            < id,
    decreases levels.len() - from,
{
    if from < levels.len() && levels[from].id >= id {
        lemma_place_from(levels, id, from + 1);
    }
}

/// Sorting puts the levels in descending order of their numbers and
/// neither drops nor adds a level.
pub proof fn lemma_sorted_levels(levels: Seq<LevelData>)
    ensures
        is_descending(sorted_levels(levels)),
        sorted_levels(levels).to_multiset() == levels.to_multiset(),
        sorted_levels(levels).len() == levels.len(),
    decreases levels.len(),
{
    if levels.len() == 0 {
        assert(levels =~= Seq::empty());
    } else {
        let before = sorted_levels(levels.drop_last());
        let last = levels.last();
        let place = place_from(before, last.id, 0);
        lemma_sorted_levels(levels.drop_last());
        lemma_place_from(before, last.id, 0);
        let sorted = before.insert(place, last);
        assert forall|i: int, j: int| 0 <= i <= j < sorted.len() implies sorted[i].id
            >= sorted[j].id by {}
        vstd::seq_lib::to_multiset_insert(before, place, last);
        vstd::seq_lib::to_multiset_build(levels.drop_last(), last);
        assert(levels.drop_last().push(last) =~= levels);
    }
}

/// The keys that are held down at one update.
#[derive(Clone, Copy, Debug, PartialEq, Eq, Structural)]
pub struct Inputs {
    pub left: bool,
    pub right: bool,
    pub up: bool,
    pub down: bool,
    pub shoot: bool,
    pub _pause: bool,
}

impl Inputs {
    /// No key is down.
    pub open spec fn spec_new() -> Inputs {
        Inputs { left: false, right: false, up: false, down: false, shoot: false, _pause: false }
    }

    /// The keys that are down after `key` went down or up: an arrow or the
    /// shoot key is down exactly when it went down, every other key changes
    /// nothing.
    pub open spec fn spec_after_key(self, key_state: KeyState, key: Key) -> Inputs {
        let pressed = key_state == KeyState::Pressed;
        match key {
            Key::ArrowUp => Inputs { up: pressed, ..self },
            Key::ArrowDown => Inputs { down: pressed, ..self },
            Key::ArrowLeft => Inputs { left: pressed, ..self },
            Key::ArrowRight => Inputs { right: pressed, ..self },
            Key::Character(c) => if c == SHOOT_KEY {
                Inputs { shoot: pressed, ..self }
            } else {
                self
            },
            _ => self,
        }
    }

    /// No key is down.
    #[verifier::when_used_as_spec(spec_new)]
    pub fn new() -> (inputs: Inputs)
        ensures
            inputs == Inputs::spec_new(),
    {
        Inputs { left: false, right: false, up: false, down: false, shoot: false, _pause: false }
    }

    /// Records that `key` went down or up.
    pub fn record_key(&mut self, key_state: KeyState, key: Key)
        ensures
            *final(self) == old(self).spec_after_key(key_state, key),
    {
        let pressed = match key_state {
            KeyState::Pressed => true,
            KeyState::Released => false,
        };
        match key {
            Key::ArrowUp => {
                self.up = pressed;
            },
            Key::ArrowDown => {
                self.down = pressed;
            },
            Key::ArrowLeft => {
                self.left = pressed;
            },
            Key::ArrowRight => {
                self.right = pressed;
            },
            Key::Character(c) => {
                if c == SHOOT_KEY {
                    self.shoot = pressed;
                }
            },
            _ => {},
        }
    }
}

/// The settings.
#[derive(Clone, Copy, Debug, PartialEq, Eq, Structural)]
pub struct Config {
    /// The index of the window size.
    pub resolution_choice: u8,
    pub _fullscreen: bool,
    /// Four times the factor by which the smallest window is scaled up.
    pub scale4: u32,
}

impl Config {
    /// The settings at the start of the program.
    pub open spec fn spec_new() -> Config {
        Config { resolution_choice: 1, _fullscreen: false, scale4: 4 }
    }

    /// The settings at the start of the program.
    #[verifier::when_used_as_spec(spec_new)]
    pub fn new() -> (config: Config)
        ensures
            config == Config::spec_new(),
    {
        Config { resolution_choice: 1, _fullscreen: false, scale4: 4 }
    }
}

/// The frame rate that is shown for a frame that took `dt`: the number of
/// such frames in a second, rounded to the nearest whole number, halves
/// upward; the largest number there is for a frame that took no time.
pub open spec fn fps_for(dt: Duration) -> u32 {
    if dt.nanos == 0 {
        u32::MAX
    } else {
        ((2 * NANOS_PER_SEC + dt.nanos) / (2 * dt.nanos)) as u32
    }
}

/// The clock readings of the game.
#[derive(Clone, Copy, Debug, PartialEq, Eq, Structural)]
pub struct GameInfo {
    /// When the game began.
    pub _game_begin: Timestamp,
    /// When the level began that is played, if any has.
    pub level_begin: Option<Timestamp>,
    /// The number of frames so far.
    pub frame_count: u64,
    /// The frame rate that is shown.
    pub fps: u32,
    /// Runs from each new reading of the frame rate.
    pub fps_cooldown: Cooldown,
    /// How long the last frame took.
    pub dt: Duration,
    /// When this frame began.
    pub t: Timestamp,
}

impl GameInfo {
    /// The readings of a game that begins at `now`.
    pub open spec fn spec_new(now: Timestamp) -> GameInfo {
        GameInfo {
            _game_begin: now,
            level_begin: None,
            frame_count: 0,
            fps: 0,
            fps_cooldown: Cooldown::spec_with_duration(Duration { nanos: FPS_REFRESH_NANOS }),
            dt: Duration { nanos: NANOS_PER_SEC },
            t: now,
        }
    }

    /// The readings once a frame begins at `now`: the frame before it took
    /// the time since it began.
    pub open spec fn spec_sampled(self, now: Timestamp) -> GameInfo {
        GameInfo { dt: now.spec_since(self.t), t: now, ..self }
    }

    /// The readings once the frame rate has been read anew, if it was time
    /// to.
    pub open spec fn spec_fps_updated(self) -> GameInfo {
        if self.fps_cooldown.spec_is_over(self.t) {
            GameInfo {
                fps: fps_for(self.dt),
                fps_cooldown: self.fps_cooldown.spec_reset(self.t),
                ..self
            }
        } else {
            self
        }
    }

    /// The readings of a game that begins at `now`.
    #[verifier::when_used_as_spec(spec_new)]
    pub fn new(now: Timestamp) -> (infos: GameInfo)
        ensures
            infos == GameInfo::spec_new(now),
    {
        GameInfo {
            _game_begin: now,
            level_begin: None,
            frame_count: 0,
            fps: 0,
            fps_cooldown: Cooldown::with_duration(Duration { nanos: FPS_REFRESH_NANOS }),
            dt: Duration { nanos: NANOS_PER_SEC },
            t: now,
        }
    }

    /// Records that a level begins at `now`.
    pub fn start_level(&mut self, now: Timestamp)
        ensures
            *final(self) == (GameInfo { level_begin: Some(now), ..*old(self) }),
    {
        self.level_begin = Some(now);
    }

    /// Counts one more frame.
    pub fn update(&mut self)
        requires
            old(self).frame_count < u64::MAX,
        ensures
            *final(self) == (GameInfo {
                frame_count: (old(self).frame_count + 1) as u64,
                ..*old(self)
            }),
    {
        self.frame_count += 1;
    }

    /// Records that a frame begins at `now`.
    pub fn sample(&mut self, now: Timestamp)
        ensures
            *final(self) == old(self).spec_sampled(now),
    {
        self.dt = now.since(self.t);
        self.t = now;
    }

    /// Reads the frame rate anew if it is time to: not more often than the
    /// eye can follow.
    pub fn update_fps(&mut self)
        ensures
            *final(self) == old(self).spec_fps_updated(),
    {
        if self.fps_cooldown.is_over(self.t) {
            self.fps = if self.dt.nanos == 0 {
                u32::MAX
            } else {
                let twice: u128 = 2 * (self.dt.nanos as u128);
                ((2 * (NANOS_PER_SEC as u128) + self.dt.nanos as u128) / twice) as u32
            };
            self.fps_cooldown.reset(self.t);
        }
    }

    /// The time at `now` since the game began.
    pub fn _since_game_begin(&self, now: Timestamp) -> (span: Duration)
        ensures
            span == now.spec_since(self._game_begin),
    {
        now.since(self._game_begin)
    }

    /// The time at `now` since the level began.
    pub fn _since_level_begin(&self, now: Timestamp) -> (span: Duration)
        requires
            self.level_begin is Some,
        ensures
            span == now.spec_since(self.level_begin->0),
    {
        now.since(self.level_begin.unwrap())
    }
}

/// How many entries the menu of levels has for a list of `n_levels` levels:
/// one for each, as far as an entry can be numbered.
pub open spec fn level_entries(n_levels: int) -> int {
    if n_levels > u16::MAX {
        u16::MAX as int
    } else {
        n_levels
    }
}

/// The entry below `choice`, the first below the last. Only the entries of
/// the main menu and of the menu of levels have one.
pub open spec fn entry_below(choice: MenuChoice, n_levels: int) -> MenuChoice {
    match choice {
        MenuChoice::Play => MenuChoice::Options,
        MenuChoice::Options => MenuChoice::Quit,
        MenuChoice::Quit => MenuChoice::Play,
        MenuChoice::Level(id) => if level_entries(n_levels) == 0 {
            choice
        } else {
            MenuChoice::Level(((id + 1) % level_entries(n_levels)) as u16)
        },
        MenuChoice::Resolution => choice,
    }
}

/// The entry above `choice`, the last above the first.
pub open spec fn entry_above(choice: MenuChoice, n_levels: int) -> MenuChoice {
    match choice {
        MenuChoice::Play => MenuChoice::Quit,
        MenuChoice::Options => MenuChoice::Play,
        MenuChoice::Quit => MenuChoice::Options,
        MenuChoice::Level(id) => if level_entries(n_levels) == 0 {
            choice
        } else {
            MenuChoice::Level(
                ((id + level_entries(n_levels) - 1) % level_entries(n_levels)) as u16,
            )
        },
        MenuChoice::Resolution => choice,
    }
}

/// The entry that Escape leads to: the menu above, the way out from the
/// main menu.
pub open spec fn entry_back(choice: MenuChoice) -> MenuChoice {
    match choice {
        MenuChoice::Play | MenuChoice::Options | MenuChoice::Quit => MenuChoice::Quit,
        MenuChoice::Resolution => MenuChoice::Options,
        MenuChoice::Level(_) => MenuChoice::Play,
    }
}

/// The window size after `choice`, the first after the last.
pub open spec fn next_size(choice: u8) -> u8 {
    ((choice + 1) % (N_SIZES as int)) as u8
}

/// The window size before `choice`, the last before the first.
pub open spec fn previous_size(choice: u8) -> u8 {
    ((choice + N_SIZES - 1) % (N_SIZES as int)) as u8
}

/// The entry below `choice`.
fn below(choice: MenuChoice, n_levels: usize) -> (entry: MenuChoice)
    ensures
        entry == entry_below(choice, n_levels as int),
{
    match choice {
        MenuChoice::Play => MenuChoice::Options,
        MenuChoice::Options => MenuChoice::Quit,
        MenuChoice::Quit => MenuChoice::Play,
        MenuChoice::Level(id) => {
            let entries: u32 = if n_levels > 0xffff {
                0xffff
            } else {
                n_levels as u32
            };
            if entries == 0 {
                choice
            } else {
                MenuChoice::Level(((id as u32 + 1) % entries) as u16)
            }
        },
        MenuChoice::Resolution => choice,
    }
}

/// The entry above `choice`.
fn above(choice: MenuChoice, n_levels: usize) -> (entry: MenuChoice)
    ensures
        entry == entry_above(choice, n_levels as int),
{
    match choice {
        MenuChoice::Play => MenuChoice::Quit,
        MenuChoice::Options => MenuChoice::Play,
        MenuChoice::Quit => MenuChoice::Options,
        MenuChoice::Level(id) => {
            let entries: u32 = if n_levels > 0xffff {
                0xffff
            } else {
                n_levels as u32
            };
            if entries == 0 {
                choice
            } else {
                MenuChoice::Level(((id as u32 + entries - 1) % entries) as u16)
            }
        },
        MenuChoice::Resolution => choice,
    }
}

/// The window size after `choice`.
fn size_after(choice: u8) -> (next: u8)
    ensures
        next == next_size(choice),
{
    ((choice as u16 + 1) % (N_SIZES as u16)) as u8
}

/// The window size before `choice`.
fn size_before(choice: u8) -> (previous: u8)
    ensures
        previous == previous_size(choice),
{
    ((choice as u16 + N_SIZES as u16 - 1) % (N_SIZES as u16)) as u8
}

/// The list `levels` with the levels that the first `n` of `texts` give,
/// each with the next number.
pub open spec fn levels_with(levels: Seq<LevelData>, texts: Seq<Vec<char>>, n: int) -> Seq<LevelData>
    decreases n,
{
    if n <= 0 {
        levels
    } else {
        let before = levels_with(levels, texts, n - 1);
        let read = level_of_text(texts[n - 1]@)->0;
        before.push(
            LevelData { id: next_level_id(before.len() as int), name: read.name, events: read.events },
        )
    }
}

impl Level {
    /// Reads the text of a level and adds the level to the list of the
    /// game, with the next number. Says whether the text could be read;
    /// where it could not, nothing changes.
    pub fn level_parser(game: &mut Game, text: &[char]) -> (read: bool)
        ensures
            read == level_of_text(text@).is_some(),
            read ==> level_data(final(game).levels@) == level_data(old(game).levels@).push(
                LevelData {
                    id: next_level_id(old(game).levels@.len() as int),
                    name: level_of_text(text@)->0.name,
                    events: level_of_text(text@)->0.events,
                },
            ),
            !read ==> final(game).levels == old(game).levels,
            final(game).state == old(game).state,
            final(game).world == old(game).world,
            final(game).inputs == old(game).inputs,
            final(game).config == old(game).config,
            final(game).infos == old(game).infos,
    {
        match parse_level(text) {
            Some(level) => {
                let n = game.levels.len();
                let id: u32 = if n > 0xffff_ffff {
                    0xffff_ffff
                } else {
                    n as u32
                };
                let ghost before = game.levels@;
                game.levels.push(Level { id, name: level.name, event_list: level.events });
                proof {
                    assert(level_data(game.levels@) =~= level_data(before).push(
                        LevelData {
                            id: next_level_id(before.len() as int),
                            name: level_of_text(text@)->0.name,
                            events: level_of_text(text@)->0.events,
                        },
                    ));
                }
                true
            },
            None => false,
        }
    }
}

/// The game: what it is doing, the level that is played, the keys, the
/// levels that there are, the settings and the clock readings.
#[derive(Debug)]
pub struct Game {
    pub state: RunState,
    pub world: Option<World>,
    pub inputs: Inputs,
    pub levels: Vec<Level>,
    pub config: Config,
    pub infos: GameInfo,
}

/// What of a game a key in a menu can change, and what the host is to do.
pub struct MenuOutcome {
    pub state: RunState,
    pub resolution_choice: u8,
    /// The index of the level to start, if one is.
    pub start: Option<u16>,
    pub actions: HostActions,
}

/// What a key that went down does in a menu with `choice` selected.
///
/// Escape leads back, the arrows up and down move the selection, or the
/// window size in the menu of options, and Enter takes the entry: into
/// another menu, out of the game, or into a level if the list has the one
/// that is selected. Each of these comes with its sound. No other key does
/// anything.
pub open spec fn menu_outcome(choice: MenuChoice, n_levels: int, resolution_choice: u8, key: Key) -> MenuOutcome {
    let stay = MenuOutcome {
        state: RunState::Menu(choice),
        resolution_choice,
        start: None,
        actions: HostActions::spec_none(),
    };
    match key {
        Key::Escape => MenuOutcome {
            state: RunState::Menu(entry_back(choice)),
            actions: HostActions { sound: Some(SoundBase::MenuBack), ..stay.actions },
            ..stay
        },
        Key::ArrowDown => if choice == MenuChoice::Resolution {
            MenuOutcome {
                resolution_choice: next_size(resolution_choice),
                actions: HostActions {
                    sound: Some(SoundBase::MenuMove),
                    resize: Some(next_size(resolution_choice)),
                    ..stay.actions
                },
                ..stay
            }
        } else {
            MenuOutcome {
                state: RunState::Menu(entry_below(choice, n_levels)),
                actions: HostActions { sound: Some(SoundBase::MenuMove), ..stay.actions },
                ..stay
            }
        },
        Key::ArrowUp => if choice == MenuChoice::Resolution {
            MenuOutcome {
                resolution_choice: previous_size(resolution_choice),
                actions: HostActions {
                    sound: Some(SoundBase::MenuMove),
                    resize: Some(previous_size(resolution_choice)),
                    ..stay.actions
                },
                ..stay
            }
        } else {
            MenuOutcome {
                state: RunState::Menu(entry_above(choice, n_levels)),
                actions: HostActions { sound: Some(SoundBase::MenuMove), ..stay.actions },
                ..stay
            }
        },
        Key::Enter => {
            let chosen = MenuOutcome {
                actions: HostActions { sound: Some(SoundBase::MenuSelect), ..stay.actions },
                ..stay
            };
            match choice {
                MenuChoice::Play => MenuOutcome {
                    state: RunState::Menu(MenuChoice::Level(0)),
                    ..chosen
                },
                MenuChoice::Options => MenuOutcome {
                    state: RunState::Menu(MenuChoice::Resolution),
                    ..chosen
                },
                MenuChoice::Quit => MenuOutcome { state: RunState::Quitting, ..chosen },
                MenuChoice::Level(id) => if id < n_levels {
                    MenuOutcome { state: RunState::Playing, start: Some(id), ..chosen }
                } else {
                    chosen
                },
                MenuChoice::Resolution => MenuOutcome {
                    state: RunState::Menu(MenuChoice::Options),
                    ..chosen
                },
            }
        },
        _ => stay,
    }
}

/// The world of a level with the script `events` that starts at `now`.
pub open spec fn level_world(events: Seq<Event>, now: Timestamp) -> WorldView {
    WorldView::start(Dimensions { w: WORLD_WIDTH, h: WORLD_HEIGHT }, events, now)
}

/// The window size that a key asks for, if it is one of the two keys that
/// change the size and went down.
pub open spec fn size_key(resolution_choice: u8, key_state: KeyState, key: Key) -> Option<u8> {
    if key_state == KeyState::Pressed && key == Key::Character(NEXT_SIZE_KEY) {
        Some(next_size(resolution_choice))
    } else if key_state == KeyState::Pressed && key == Key::Character(PREVIOUS_SIZE_KEY) {
        Some(previous_size(resolution_choice))
    } else {
        None
    }
}

impl Game {
    /// The number of levels.
    pub open spec fn n_levels(&self) -> int {
        self.levels@.len() as int
    }

    /// Whether `after` is the game `before` once the menu that is shown, if
    /// one is, has taken a key, with `actions` left to the host. The keys
    /// that are held down are not spoken of.
    ///
    /// In a menu, a key that went down does what `menu_outcome` says; where
    /// that starts a level, its world is new and the clock readings keep the
    /// time at which it began. Nothing else changes anything.
    pub open spec fn menu_step(
        before: Game,
        after: Game,
        key_state: KeyState,
        key: Key,
        now: Timestamp,
        actions: HostActions,
    ) -> bool {
        &&& after.levels == before.levels
        &&& after.config._fullscreen == before.config._fullscreen
        &&& after.config.scale4 == before.config.scale4
        &&& match before.state {
            RunState::Menu(choice) if key_state == KeyState::Pressed => {
                let outcome = menu_outcome(
                    choice,
                    before.n_levels(),
                    before.config.resolution_choice,
                    key,
                );
                &&& actions == outcome.actions
                &&& after.state == outcome.state
                &&& after.config.resolution_choice == outcome.resolution_choice
                &&& match outcome.start {
                    Some(id) => after.world is Some && after.world->0@ == level_world(
                        before.levels@[id as int].event_list@,
                        now,
                    ) && after.world->0@.wf() && after.infos == (GameInfo {
                        level_begin: Some(now),
                        ..before.infos
                    }),
                    None => after.world == before.world && after.infos == before.infos,
                }
            },
            _ => {
                &&& actions == HostActions::spec_none()
                &&& after.state == before.state
                &&& after.config == before.config
                &&& after.world == before.world
                &&& after.infos == before.infos
            },
        }
    }

    /// The game at the start of the program, at `now`: in the main menu,
    /// with no level loaded and none played.
    pub fn launch(now: Timestamp) -> (game: Game)
        ensures
            game.state == RunState::Menu(MenuChoice::Play),
            game.world is None,
            game.inputs == Inputs::spec_new(),
            game.levels@.len() == 0,
            game.config == Config::spec_new(),
            game.infos == GameInfo::spec_new(now),
    {
        Game {
            state: RunState::Menu(MenuChoice::Play),
            world: None,
            inputs: Inputs::new(),
            levels: Vec::new(),
            config: Config::new(),
            infos: GameInfo::new(now),
        }
    }

    /// Starts the level of index `id` at `now`, if the list has one, and
    /// says whether it has. Without one nothing changes.
    pub fn start_level(&mut self, id: u32, now: Timestamp) -> (started: bool)
        ensures
            started == (id < old(self).n_levels()),
            started ==> final(self).world is Some && final(self).world->0@ == level_world(
                old(self).levels@[id as int].event_list@,
                now,
            ) && final(self).world->0@.wf() && final(self).infos == (GameInfo {
                level_begin: Some(now),
                ..old(self).infos
            }),
            !started ==> final(self).world == old(self).world && final(self).infos == old(
                self,
            ).infos,
            final(self).state == old(self).state,
            final(self).inputs == old(self).inputs,
            final(self).levels == old(self).levels,
            final(self).config == old(self).config,
    {
        if (id as usize) < self.levels.len() {
            self.infos.start_level(now);
            let events = self.levels[id as usize].event_list.clone();
            self.world = Some(
                World::start(Dimensions { w: WORLD_WIDTH, h: WORLD_HEIGHT }, events, now),
            );
            true
        } else {
            false
        }
    }

    /// Hands a key to the menu that is shown. A key that went up, and any key
    /// outside the menus, does nothing.
    pub fn menu_key_handling(&mut self, key_state: KeyState, key: Key, now: Timestamp) -> (actions:
        HostActions)
        ensures
            final(self).inputs == old(self).inputs,
            Game::menu_step(*old(self), *final(self), key_state, key, now, actions),
    {
        let choice = match (self.state, key_state) {
            (RunState::Menu(choice), KeyState::Pressed) => choice,
            _ => {
                return HostActions::none();
            },
        };
        let mut actions = HostActions::none();
        match key {
            Key::Escape => {
                actions.sound = Some(SoundBase::MenuBack);
                self.state = RunState::Menu(
                    match choice {
                        MenuChoice::Play | MenuChoice::Options | MenuChoice::Quit => MenuChoice::Quit,
                        MenuChoice::Resolution => MenuChoice::Options,
                        MenuChoice::Level(_) => MenuChoice::Play,
                    },
                );
            },
            Key::ArrowDown => {
                actions.sound = Some(SoundBase::MenuMove);
                match choice {
                    MenuChoice::Resolution => {
                        self.config.resolution_choice = size_after(self.config.resolution_choice);
                        actions.resize = Some(self.config.resolution_choice);
                    },
                    _ => {
                        self.state = RunState::Menu(below(choice, self.levels.len()));
                    },
                }
            },
            Key::ArrowUp => {
                actions.sound = Some(SoundBase::MenuMove);
                match choice {
                    MenuChoice::Resolution => {
                        self.config.resolution_choice = size_before(self.config.resolution_choice);
                        actions.resize = Some(self.config.resolution_choice);
                    },
                    _ => {
                        self.state = RunState::Menu(above(choice, self.levels.len()));
                    },
                }
            },
            Key::Enter => {
                actions.sound = Some(SoundBase::MenuSelect);
                match choice {
                    MenuChoice::Play => {
                        self.state = RunState::Menu(MenuChoice::Level(0));
                    },
                    MenuChoice::Options => {
                        self.state = RunState::Menu(MenuChoice::Resolution);
                    },
                    MenuChoice::Quit => {
                        self.state = RunState::Quitting;
                    },
                    MenuChoice::Level(id) => {
                        if self.start_level(id as u32, now) {
                            self.state = RunState::Playing;
                        }
                    },
                    MenuChoice::Resolution => {
                        self.state = RunState::Menu(MenuChoice::Options);
                    },
                }
            },
            _ => {},
        }
        actions
    }

    /// Hands a key to the game: to the menu if one is shown, and to the keys
    /// that are held down in any case.
    pub fn process_input(&mut self, key_state: KeyState, key: Key, now: Timestamp) -> (actions:
        HostActions)
        ensures
            final(self).inputs == old(self).inputs.spec_after_key(key_state, key),
            Game::menu_step(*old(self), *final(self), key_state, key, now, actions),
    {
        let actions = match self.state {
            RunState::Menu(_) => self.menu_key_handling(key_state, key, now),
            _ => HostActions::none(),
        };
        self.inputs.record_key(key_state, key);
        actions
    }

    /// Hands a key of the window to the game.
    ///
    /// Escape, when it goes down, asks the host to leave. The two keys that
    /// change the window size, when they go down, take the next or the
    /// previous size and ask the host for it. Every key is then handed on as
    /// `process_input` does.
    pub fn window_key(&mut self, key_state: KeyState, key: Key, now: Timestamp) -> (actions:
        HostActions)
        ensures
            actions.exit == (key_state == KeyState::Pressed && key == Key::Escape),
            final(self).inputs == old(self).inputs.spec_after_key(key_state, key),
            match size_key(old(self).config.resolution_choice, key_state, key) {
                Some(size) => {
                    &&& actions.resize == Some(size)
                    &&& actions.sound.is_none()
                    &&& final(self).config == (Config {
                        resolution_choice: size,
                        ..old(self).config
                    })
                    &&& final(self).state == old(self).state
                    &&& final(self).world == old(self).world
                    &&& final(self).infos == old(self).infos
                    &&& final(self).levels == old(self).levels
                },
                None => Game::menu_step(
                    *old(self),
                    *final(self),
                    key_state,
                    key,
                    now,
                    HostActions { exit: false, ..actions },
                ),
            },
    {
        let mut exit = false;
        let mut resize: Option<u8> = None;
        match (key_state, key) {
            (KeyState::Pressed, Key::Escape) => {
                exit = true;
            },
            (KeyState::Pressed, Key::Character(c)) => {
                if c == NEXT_SIZE_KEY {
                    self.config.resolution_choice = size_after(self.config.resolution_choice);
                    resize = Some(self.config.resolution_choice);
                } else if c == PREVIOUS_SIZE_KEY {
                    self.config.resolution_choice = size_before(self.config.resolution_choice);
                    resize = Some(self.config.resolution_choice);
                }
            },
            _ => {},
        }
        let handed = self.process_input(key_state, key, now);
        HostActions {
            exit,
            sound: handed.sound,
            resize: match resize {
                Some(size) => Some(size),
                None => handed.resize,
            },
        }
    }

    /// Reads the texts of some levels and adds them to the list, each with
    /// the next number, then puts the list in the order of the numbers, the
    /// largest first. Says whether every text could be read; at the first
    /// that could not, the levels before it have been added and nothing more
    /// is done.
    pub fn load_levels(&mut self, texts: &Vec<Vec<char>>) -> (loaded: bool)
        ensures
            loaded == (forall|k: int|
                0 <= k < texts@.len() ==> level_of_text((#[trigger] texts@[k])@).is_some()),
            loaded ==> level_data(final(self).levels@) == sorted_levels(
                levels_with(level_data(old(self).levels@), texts@, texts@.len() as int),
            ),
            !loaded ==> exists|k: int|
                0 <= k < texts@.len() && level_of_text((#[trigger] texts@[k])@).is_none() && (
                forall|j: int| 0 <= j < k ==> level_of_text((#[trigger] texts@[j])@).is_some())
                    && level_data(final(self).levels@) == levels_with(
                    level_data(old(self).levels@),
                    texts@,
                    k,
                ),
            final(self).state == old(self).state,
            final(self).world == old(self).world,
            final(self).inputs == old(self).inputs,
            final(self).config == old(self).config,
            final(self).infos == old(self).infos,
    {
        let ghost before = level_data(self.levels@);
        let mut i: usize = 0;
        while i < texts.len()
            invariant
                i <= texts@.len(),
                before == level_data(old(self).levels@),
                level_data(self.levels@) == levels_with(before, texts@, i as int),
                forall|k: int| 0 <= k < i ==> level_of_text((#[trigger] texts@[k])@).is_some(),
                self.state == old(self).state,
                self.world == old(self).world,
                self.inputs == old(self).inputs,
                self.config == old(self).config,
                self.infos == old(self).infos,
            decreases texts@.len() - i,
        {
            if !Level::level_parser(self, texts[i].as_slice()) {
                return false;
            }
            i = i + 1;
        }
        self.sort_levels();
        true
    }

    /// Puts the levels in the order of their numbers, the largest first;
    /// levels of one number stay in their order.
    pub fn sort_levels(&mut self)
        ensures
            level_data(final(self).levels@) == sorted_levels(level_data(old(self).levels@)),
            final(self).state == old(self).state,
            final(self).world == old(self).world,
            final(self).inputs == old(self).inputs,
            final(self).config == old(self).config,
            final(self).infos == old(self).infos,
    {
        let ghost data = level_data(self.levels@);
        let mut sorted: Vec<Level> = Vec::new();
        let mut i: usize = 0;
        while i < self.levels.len()
            invariant
                i <= self.levels@.len(),
                data == level_data(self.levels@),
                self.levels == old(self).levels,
                level_data(sorted@) == sorted_levels(data.take(i as int)),
                self.state == old(self).state,
                self.world == old(self).world,
                self.inputs == old(self).inputs,
                self.config == old(self).config,
                self.infos == old(self).infos,
            decreases self.levels@.len() - i,
        {
            let level = self.levels[i].clone();
            let ghost sorted_data = level_data(sorted@);
            let mut place: usize = 0;
            while place < sorted.len() && sorted[place].id >= level.id
                invariant
                    place <= sorted@.len(),
                    sorted_data == level_data(sorted@),
                    place_from(sorted_data, level.id, 0) == place_from(
                        sorted_data,
                        level.id,
                        place as int,
                    ),
                decreases sorted@.len() - place,
            {
                place = place + 1;
            }
            proof {
                assert(data.take(i as int + 1).drop_last() == data.take(i as int));
                assert(level_data(sorted@.insert(place as int, level)) =~= sorted_data.insert(
                    place as int,
                    level@,
                ));
            }
            sorted.insert(place, level);
            i = i + 1;
        }
        proof {
            assert(data.take(i as int) == data);
        }
        self.levels = sorted;
    }

    /// Takes the size of the window: the settings keep four times the factor
    /// by which it is wider than the smallest window.
    pub fn resize(&mut self, size: Dimensions<u32>)
        ensures
            *final(self) == (Game {
                config: Config {
                    scale4: ((4 * size.w) / (BASE_WIDTH as int)) as u32,
                    ..old(self).config
                },
                ..*old(self)
            }),
    {
        self.config.scale4 = ((4 * (size.w as u64)) / (BASE_WIDTH as u64)) as u32;
    }

    /// Reads the frame rate anew if it is time to.
    pub fn update_fps(&mut self)
        ensures
            *final(self) == (Game { infos: old(self).infos.spec_fps_updated(), ..*old(self) }),
    {
        self.infos.update_fps();
    }

    /// Moves the player and the enemies of the level that is played and lets
    /// them shoot, with the keys that are down, at the time of this frame.
    pub fn update_entities(&mut self)
        requires
            old(self).world is Some,
        ensures
            final(self).world is Some,
            final(self).world->0@ == old(self).world->0@.entities_updated(
                old(self).inputs,
                old(self).infos.t,
                old(self).infos.dt,
            ),
            final(self).state == old(self).state,
            final(self).inputs == old(self).inputs,
            final(self).levels == old(self).levels,
            final(self).config == old(self).config,
            final(self).infos == old(self).infos,
    {
        let inputs = self.inputs;
        let now = self.infos.t;
        let dt = self.infos.dt;
        match &mut self.world {
            Some(world) => {
                world.update_entities(&inputs, now, dt);
            },
            None => {},
        }
    }

    /// Lets the projectiles of the level that is played fly and hit, at the
    /// time of this frame.
    pub fn update_projectiles(&mut self)
        requires
            old(self).world is Some,
        ensures
            final(self).world is Some,
            final(self).world->0@ == old(self).world->0@.projectiles_updated(
                old(self).infos.t,
                old(self).infos.dt,
            ),
            final(self).state == old(self).state,
            final(self).inputs == old(self).inputs,
            final(self).levels == old(self).levels,
            final(self).config == old(self).config,
            final(self).infos == old(self).infos,
    {
        let now = self.infos.t;
        let dt = self.infos.dt;
        match &mut self.world {
            Some(world) => {
                world.update_projectiles(now, dt);
            },
            None => {},
        }
    }

    /// One whole update of the level that is played, at the time of this
    /// frame, and how the level then stands.
    pub fn tick(&mut self) -> (state: TerminalState)
        requires
            old(self).world is Some,
        ensures
            final(self).world is Some,
            final(self).world->0@ == old(self).world->0@.ticked(
                old(self).inputs,
                old(self).infos.t,
                old(self).infos.dt,
            ),
            state == final(self).world->0@.check_end(),
            final(self).state == old(self).state,
            final(self).inputs == old(self).inputs,
            final(self).levels == old(self).levels,
            final(self).config == old(self).config,
            final(self).infos == old(self).infos,
    {
        let inputs = self.inputs;
        let now = self.infos.t;
        let dt = self.infos.dt;
        match &mut self.world {
            Some(world) => world.tick(&inputs, now, dt),
            None => TerminalState::Ongoing,
        }
    }
}

} // verus!
