//! The world of one level: the player, the enemies, the projectiles, the
//! arena, the score and the script, and what one update does to them.
//!
//! An update is made of four steps, always in this order: the script fires
//! what is due ([`World::process_events`]); the player and the enemies move
//! and shoot ([`World::update_entities`]); the projectiles fly and hit
//! ([`World::update_projectiles`]); and the level is found to go on, to be
//! won or to be lost ([`World::check_end`]). [`World::tick`] does all four.

use vstd::prelude::*;
use crate::coords::{collide_rectangle, spec_collide_rectangle, Dimensions, Point, Rect};
use crate::enemy::{Enemy, EnemyState};
use crate::events::{Event, EventSystem, EventSystemView, EventType};
use crate::game::Inputs;
use crate::player::Player;
use crate::projectile::{proj_size, spec_proj_size, Projectile};
use crate::time::{Duration, Timestamp};

verus! {

/// Whether each of `enemies` is as this library makes and keeps enemies.
pub open spec fn all_wf(enemies: Seq<Enemy>) -> bool {
    forall|i: int| 0 <= i < enemies.len() ==> (#[trigger] enemies[i]).wf()
}

/// What a dead enemy adds to the score.
pub const KILL_BONUS: u64 = 100;

/// How a level stands after an update.
#[derive(Clone, Copy, Debug, PartialEq, Eq, Structural)]
pub enum TerminalState {
    /// The level goes on.
    Ongoing,
    /// No enemy is left and none is to come.
    Won,
    /// The player has no hit points left.
    Lost,
}

/// The world of one level.
#[derive(Debug)]
pub struct World {
    pub player: Player,
    pub projectiles: Vec<Projectile>,
    pub enemies: Vec<Enemy>,
    pub boundaries: Rect<i64>,
    pub score: u64,
    pub event_syst: EventSystem,
}

/// What a world holds.
pub struct WorldView {
    pub player: Player,
    pub projectiles: Seq<Projectile>,
    pub enemies: Seq<Enemy>,
    pub boundaries: Rect<i64>,
    pub score: u64,
    pub events: EventSystemView,
}

impl View for World {
    type V = WorldView;

    open spec fn view(&self) -> WorldView {
        WorldView {
            player: self.player,
            projectiles: self.projectiles@,
            enemies: self.enemies@,
            boundaries: self.boundaries,
            score: self.score,
            events: self.event_syst@,
        }
    }
}

impl Clone for World {
    fn clone(&self) -> (copy: Self)
        ensures
            copy@ == self@,
    {
        World {
            player: self.player,
            projectiles: self.projectiles.clone(),
            enemies: self.enemies.clone(),
            boundaries: self.boundaries,
            score: self.score,
            event_syst: self.event_syst.clone(),
        }
    }
}

/// The score nearest to `v` that a `u64` can hold.
pub open spec fn clamp_score(v: int) -> u64 {
    if v > u64::MAX {
        u64::MAX
    } else if v < 0 {
        0
    } else {
        v as u64
    }
}

/// The enemy that an event makes appear.
pub open spec fn spawned_by(payload: EventType) -> Enemy {
    match payload {
        EventType::_SpawnEnemy(pos, variant) => Enemy::spec_spawn(pos, variant),
    }
}

/// The enemies that some events make appear, in the order of the events.
pub open spec fn spawned(payloads: Seq<EventType>) -> Seq<Enemy> {
    Seq::new(payloads.len(), |i: int| spawned_by(payloads[i]))
}

/// Each of `enemies` after its update of `dt`.
pub open spec fn moved_enemies(enemies: Seq<Enemy>, bounds: Rect<i64>, dt: Duration) -> Seq<Enemy> {
    Seq::new(enemies.len(), |i: int| enemies[i].spec_update_pos(bounds, dt))
}

/// Whether an enemy is to be removed: it is dead, or it has left the arena.
pub open spec fn is_gone(enemy: Enemy) -> bool {
    enemy.state == EnemyState::Dead || enemy.state == EnemyState::OffScreen
}

/// Those of `enemies` that are not to be removed, in their order.
pub open spec fn survivors(enemies: Seq<Enemy>) -> Seq<Enemy>
    decreases enemies.len(),
{
    if enemies.len() == 0 {
        Seq::empty()
    } else {
        let before = survivors(enemies.drop_last());
        if is_gone(enemies.last()) {
            before
        } else {
            before.push(enemies.last())
        }
    }
}

/// How many of `enemies` are dead.
pub open spec fn dead_count(enemies: Seq<Enemy>) -> nat
    decreases enemies.len(),
{
    if enemies.len() == 0 {
        0
    } else {
        let before = dead_count(enemies.drop_last());
        if enemies.last().state == EnemyState::Dead {
            before + 1
        } else {
            before
        }
    }
}

/// The projectiles that those of `enemies` shoot that do shoot at `now`,
/// with the player at `target`, in the order of the enemies.
pub open spec fn volley(enemies: Seq<Enemy>, target: Point<i64>, bounds: Rect<i64>, now: Timestamp) -> Seq<
    Projectile,
>
    decreases enemies.len(),
{
    if enemies.len() == 0 {
        Seq::empty()
    } else {
        let before = volley(enemies.drop_last(), target, bounds, now);
        if enemies.last().spec_fires(bounds, now) {
            before.push(enemies.last().spec_shot(target))
        } else {
            before
        }
    }
}

/// Each of `enemies` after it shot at `now`, if it did.
pub open spec fn after_volley(enemies: Seq<Enemy>, bounds: Rect<i64>, now: Timestamp) -> Seq<Enemy> {
    Seq::new(
        enemies.len(),
        |i: int|
            if enemies[i].spec_fires(bounds, now) {
                enemies[i].spec_after_shot(now)
            } else {
                enemies[i]
            },
    )
}

/// Whether a projectile at `at` overlaps the enemy.
pub open spec fn hits_enemy(enemy: Enemy, at: Point<i64>) -> bool {
    spec_collide_rectangle(enemy.pos, enemy.size, at, spec_proj_size())
}

/// Whether a projectile at `at` overlaps the hit box of the player.
pub open spec fn hits_player(player: Player, at: Point<i64>) -> bool {
    spec_collide_rectangle(player.pos, player.hitbox.dims, at, spec_proj_size())
}

/// The index of the first of `enemies` that a projectile at `at` overlaps.
pub open spec fn first_hit(enemies: Seq<Enemy>, at: Point<i64>) -> Option<int>
    decreases enemies.len(),
{
    if enemies.len() == 0 {
        None
    } else {
        match first_hit(enemies.drop_last(), at) {
            Some(j) => Some(j),
            None => if hits_enemy(enemies.last(), at) {
                Some(enemies.len() - 1)
            } else {
                None
            },
        }
    }
}

/// What the projectiles of one update have done so far.
pub struct Skirmish {
    /// The projectiles that go on flying.
    pub kept: Seq<Projectile>,
    pub enemies: Seq<Enemy>,
    pub player: Player,
}

/// What one projectile does in an update of `dt` at `now`.
///
/// It flies for `dt`. If that takes it out of the arena, it is gone and
/// nothing else happens. A projectile of the player hits the first enemy
/// that it overlaps and is gone; where it overlaps none it goes on flying. A
/// projectile of an enemy hits the player if the player can be hit and it
/// overlaps the hit box, and is gone; otherwise it goes on flying.
pub open spec fn resolve_one(
    so_far: Skirmish,
    proj: Projectile,
    bounds: Rect<i64>,
    now: Timestamp,
    dt: Duration,
) -> Skirmish {
    let flown = proj.spec_advanced(dt);
    if !bounds.spec_contains(flown.pos) {
        so_far
    } else if flown.spec_is_player_owned() {
        match first_hit(so_far.enemies, flown.pos) {
            Some(j) => Skirmish {
                enemies: so_far.enemies.update(j, so_far.enemies[j].spec_get_shot(flown.spec_damage())),
                ..so_far
            },
            None => Skirmish { kept: so_far.kept.push(flown), ..so_far },
        }
    } else if so_far.player.spec_immunity_over(now) && hits_player(so_far.player, flown.pos) {
        Skirmish { player: so_far.player.spec_take_hit(flown.spec_damage(), now), ..so_far }
    } else {
        Skirmish { kept: so_far.kept.push(flown), ..so_far }
    }
}

/// What the projectiles `projs` do in an update, one after the other.
pub open spec fn resolve_all(
    start: Skirmish,
    projs: Seq<Projectile>,
    bounds: Rect<i64>,
    now: Timestamp,
    dt: Duration,
) -> Skirmish
    decreases projs.len(),
{
    if projs.len() == 0 {
        start
    } else {
        resolve_one(resolve_all(start, projs.drop_last(), bounds, now, dt), projs.last(), bounds, now, dt)
    }
}

impl WorldView {
    /// The world at the start of a level in an arena of size `dims`, with the
    /// script `events`, at `now`.
    pub open spec fn start(dims: Dimensions<i64>, events: Seq<Event>, now: Timestamp) -> WorldView {
        WorldView {
            player: Player::spec_new(),
            projectiles: Seq::empty(),
            enemies: Seq::empty(),
            boundaries: dims.spec_into_rect(),
            score: 0,
            events: EventSystemView::start(events, now),
        }
    }

    /// Every enemy is as this library makes and keeps enemies.
    pub open spec fn wf(self) -> bool {
        all_wf(self.enemies)
    }

    /// How the level stands: lost once the player has no hit points left,
    /// whatever else holds; won when no enemy is left and no event pending.
    pub open spec fn check_end(self) -> TerminalState {
        if self.player.hp == 0 {
            TerminalState::Lost
        } else if self.enemies.len() == 0 && self.events.pending.len() == 0 {
            TerminalState::Won
        } else {
            TerminalState::Ongoing
        }
    }

    /// The world after the script has fired what is due at `now`: the new
    /// enemies stand behind those that were there.
    pub open spec fn events_processed(self, now: Timestamp) -> WorldView {
        WorldView {
            enemies: self.enemies + spawned(self.events.fired(now)),
            events: self.events.processed(now),
            ..self
        }
    }

    /// The world after the player and the enemies have moved and shot.
    ///
    /// The player moves, then shoots if it can. Every enemy is updated; the
    /// dead are removed and add to the score, those that left the arena are
    /// removed for nothing. Then each enemy that is left shoots if it can.
    /// The new projectiles stand behind those that were there: first that of
    /// the player, then those of the enemies in their order.
    pub open spec fn entities_updated(self, inputs: Inputs, now: Timestamp, dt: Duration) -> WorldView {
        let moved_player = self.player.spec_update_pos(inputs, self.boundaries, dt);
        let shoots = moved_player.spec_fires(inputs.shoot, now);
        let player = if shoots {
            moved_player.spec_after_shot(now)
        } else {
            moved_player
        };
        let own = if shoots {
            self.projectiles.push(moved_player.spec_shot())
        } else {
            self.projectiles
        };
        let moved = moved_enemies(self.enemies, self.boundaries, dt);
        let alive = survivors(moved);
        WorldView {
            player,
            projectiles: own + volley(alive, player.pos, self.boundaries, now),
            enemies: after_volley(alive, self.boundaries, now),
            score: clamp_score(self.score + KILL_BONUS * dead_count(moved)),
            ..self
        }
    }

    /// The world after the projectiles have flown and hit, in their order.
    pub open spec fn projectiles_updated(self, now: Timestamp, dt: Duration) -> WorldView {
        let start = Skirmish { kept: Seq::empty(), enemies: self.enemies, player: self.player };
        let end = resolve_all(start, self.projectiles, self.boundaries, now, dt);
        WorldView { player: end.player, projectiles: end.kept, enemies: end.enemies, ..self }
    }

    /// The world after one whole update.
    pub open spec fn ticked(self, inputs: Inputs, now: Timestamp, dt: Duration) -> WorldView {
        self.events_processed(now).entities_updated(inputs, now, dt).projectiles_updated(now, dt)
    }
}

impl World {
    /// Starts a level in an arena of size `dims` with the script `evt_list`.
    pub fn start(dims: Dimensions<i64>, evt_list: Vec<Event>, now: Timestamp) -> (world: World)
        ensures
            world@ == WorldView::start(dims, evt_list@, now),
            world@.wf(),
    {
        World {
            player: Player::new(),
            projectiles: Vec::new(),
            enemies: Vec::new(),
            boundaries: dims.into_rect(),
            score: 0,
            event_syst: EventSystem::new(evt_list, now),
        }
    }

    /// How the level stands.
    pub fn check_end(&self) -> (state: TerminalState)
        ensures
            state == self@.check_end(),
    {
        if self.player.hp == 0 {
            TerminalState::Lost
        } else if self.enemies.len() == 0 && self.event_syst.events_clear() {
            TerminalState::Won
        } else {
            TerminalState::Ongoing
        }
    }

    /// Lets the script fire what is due at `now`.
    pub fn process_events(&mut self, now: Timestamp)
        ensures
            final(self)@ == old(self)@.events_processed(now),
            old(self)@.wf() ==> final(self)@.wf(),
    {
        let fired = self.event_syst.process(now);
        let ghost before = self.enemies@;
        let mut i: usize = 0;
        while i < fired.len()
            invariant
                i <= fired.len(),
                self.enemies@ == before + spawned(fired@.take(i as int)),
                self.player == old(self).player,
                self.projectiles == old(self).projectiles,
                self.boundaries == old(self).boundaries,
                self.score == old(self).score,
                self.event_syst@ == old(self).event_syst@.processed(now),
                before == old(self).enemies@,
                all_wf(old(self).enemies@) ==> all_wf(self.enemies@),
            decreases fired.len() - i,
        {
            match fired[i] {
                EventType::_SpawnEnemy(pos, variant) => {
                    self.enemies.push(Enemy::spawn(pos, variant));
                },
            }
            i = i + 1;
        }
        proof {
            assert(fired@.take(i as int) == fired@);
        }
    }

    /// Moves the player and the enemies and lets them shoot.
    pub fn update_entities(&mut self, inputs: &Inputs, now: Timestamp, dt: Duration)
        ensures
            final(self)@ == old(self)@.entities_updated(*inputs, now, dt),
            old(self)@.wf() ==> final(self)@.wf(),
            final(self).score >= old(self).score,
    {
        let bounds = self.boundaries;
        self.player.update_pos(inputs, bounds, dt);
        match self.player.try_fire(inputs.shoot, now) {
            Some(proj) => {
                self.projectiles.push(proj);
            },
            None => {},
        }
        let target = self.player.pos;
        let ghost own = self.projectiles@;
        let ghost moved = moved_enemies(old(self).enemies@, bounds, dt);
        let mut alive: Vec<Enemy> = Vec::new();
        let mut i: usize = 0;
        while i < self.enemies.len()
            invariant
                i <= self.enemies.len(),
                self.enemies == old(self).enemies,
                self.boundaries == old(self).boundaries,
                bounds == self.boundaries,
                self.event_syst == old(self).event_syst,
                self.projectiles@ == own,
                self.player.pos == target,
                self.player == old(self)@.entities_updated(*inputs, now, dt).player,
                moved == moved_enemies(old(self).enemies@, bounds, dt),
                alive@ == survivors(moved.take(i as int)),
                self.score == clamp_score(old(self).score + KILL_BONUS * dead_count(moved.take(i as int))),
                self.score >= old(self).score,
                all_wf(old(self).enemies@) ==> all_wf(alive@),
            decreases self.enemies.len() - i,
        {
            let mut enemy = self.enemies[i];
            enemy.update_pos(bounds, dt);
            proof {
                assert(moved.take(i as int + 1).drop_last() == moved.take(i as int));
            }
            match enemy.state {
                EnemyState::Dead => {
                    self.score = self.score.saturating_add(KILL_BONUS);
                },
                EnemyState::OffScreen => {},
                _ => {
                    alive.push(enemy);
                },
            }
            i = i + 1;
        }
        proof {
            assert(moved.take(i as int) == moved);
        }
        let mut enemies: Vec<Enemy> = Vec::new();
        let mut j: usize = 0;
        while j < alive.len()
            invariant
                j <= alive.len(),
                enemies@ == after_volley(alive@, bounds, now).take(j as int),
                self.projectiles@ == own + volley(alive@.take(j as int), target, bounds, now),
                self.boundaries == old(self).boundaries,
                self.event_syst == old(self).event_syst,
                self.player == old(self)@.entities_updated(*inputs, now, dt).player,
                self.score == clamp_score(old(self).score + KILL_BONUS * dead_count(moved)),
                self.score >= old(self).score,
                all_wf(old(self).enemies@) ==> all_wf(alive@),
                all_wf(old(self).enemies@) ==> all_wf(enemies@),
            decreases alive.len() - j,
        {
            let mut enemy = alive[j];
            proof {
                assert(alive@.take(j as int + 1).drop_last() == alive@.take(j as int));
            }
            match enemy.try_fire(target, bounds, now) {
                Some(proj) => {
                    self.projectiles.push(proj);
                },
                None => {},
            }
            enemies.push(enemy);
            j = j + 1;
        }
        proof {
            assert(alive@.take(j as int) == alive@);
            assert(after_volley(alive@, bounds, now).take(j as int) == after_volley(
                alive@,
                bounds,
                now,
            ));
        }
        self.enemies = enemies;
    }

    /// Lets the projectiles fly and hit.
    pub fn update_projectiles(&mut self, now: Timestamp, dt: Duration)
        ensures
            final(self)@ == old(self)@.projectiles_updated(now, dt),
            old(self)@.wf() ==> final(self)@.wf(),
    {
        let bounds = self.boundaries;
        let ghost start = Skirmish {
            kept: Seq::empty(),
            enemies: self.enemies@,
            player: self.player,
        };
        let ghost projs = self.projectiles@;
        let mut kept: Vec<Projectile> = Vec::new();
        let mut i: usize = 0;
        while i < self.projectiles.len()
            invariant
                i <= self.projectiles.len(),
                self.projectiles@ == projs,
                self.boundaries == old(self).boundaries,
                bounds == self.boundaries,
                self.event_syst == old(self).event_syst,
                self.score == old(self).score,
                (Skirmish { kept: kept@, enemies: self.enemies@, player: self.player })
                    == resolve_all(start, projs.take(i as int), bounds, now, dt),
                all_wf(old(self).enemies@) ==> all_wf(self.enemies@),
            decreases self.projectiles.len() - i,
        {
            let mut proj = self.projectiles[i];
            proj.advance(dt);
            proof {
                assert(projs.take(i as int + 1).drop_last() == projs.take(i as int));
            }
            if bounds.contains(proj.pos) {
                if proj.is_player_owned() {
                    match self.find_hit(proj.pos) {
                        Some(j) => {
                            let ghost others = self.enemies@;
                            self.enemies[j].get_shot(proj.damage());
                            proof {
                                assert(self.enemies@ == others.update(
                                    j as int,
                                    others[j as int].spec_get_shot(proj.spec_damage()),
                                ));
                                if all_wf(others) {
                                    assert forall|k: int| 0 <= k < self.enemies@.len() implies (
                                    #[trigger] self.enemies@[k]).wf() by {}
                                }
                            }
                        },
                        None => {
                            kept.push(proj);
                        },
                    }
                } else if self.player.immunity_over(now) && collide_rectangle(
                    self.player.pos,
                    self.player.hitbox.dims,
                    proj.pos,
                    proj_size(),
                ) {
                    self.player.take_hit(proj.damage(), now);
                } else {
                    kept.push(proj);
                }
            }
            i = i + 1;
        }
        proof {
            assert(projs.take(i as int) == projs);
        }
        self.projectiles = kept;
    }

    /// The index of the first enemy that a projectile at `at` overlaps.
    fn find_hit(&self, at: Point<i64>) -> (hit: Option<usize>)
        ensures
            match hit {
                Some(j) => first_hit(self.enemies@, at) == Some(j as int) && j < self.enemies@.len(),
                None => first_hit(self.enemies@, at).is_none(),
            },
    {
        let mut j: usize = 0;
        while j < self.enemies.len()
            invariant
                j <= self.enemies.len(),
                first_hit(self.enemies@.take(j as int), at).is_none(),
            decreases self.enemies.len() - j,
        {
            let enemy = self.enemies[j];
            proof {
                assert(self.enemies@.take(j as int + 1).drop_last() == self.enemies@.take(j as int));
            }
            if collide_rectangle(enemy.pos, enemy.size, at, proj_size()) {
                proof {
                    lemma_first_hit_prefix(self.enemies@, j as int + 1, at);
                }
                return Some(j);
            }
            j = j + 1;
        }
        proof {
            assert(self.enemies@.take(j as int) == self.enemies@);
        }
        None
    }

    /// One whole update: the script, the player and the enemies, the
    /// projectiles, and how the level then stands.
    pub fn tick(&mut self, inputs: &Inputs, now: Timestamp, dt: Duration) -> (state: TerminalState)
        ensures
            final(self)@ == old(self)@.ticked(*inputs, now, dt),
            state == final(self)@.check_end(),
            old(self)@.wf() ==> final(self)@.wf(),
            final(self).score >= old(self).score,
    {
        self.process_events(now);
        self.update_entities(inputs, now, dt);
        self.update_projectiles(now, dt);
        self.check_end()
    }
}

/// A hit among the first `n` enemies is the first hit among all of them.
pub proof fn lemma_first_hit_prefix(enemies: Seq<Enemy>, n: int, at: Point<i64>)
    requires
        0 <= n <= enemies.len(),
        first_hit(enemies.take(n), at).is_some(),
    ensures
        first_hit(enemies, at) == first_hit(enemies.take(n), at),
    decreases enemies.len(),
{
    if n < enemies.len() {
        assert(enemies.drop_last().take(n) == enemies.take(n));
        lemma_first_hit_prefix(enemies.drop_last(), n, at);
    } else {
        assert(enemies.take(n) == enemies);
    }
}

/// What `first_hit` finds is the first enemy that the projectile overlaps:
/// it overlaps that one and none before it; where nothing is found it
/// overlaps none.
pub proof fn lemma_first_hit(enemies: Seq<Enemy>, at: Point<i64>)
    ensures
        match first_hit(enemies, at) {
            Some(j) => 0 <= j < enemies.len() && hits_enemy(enemies[j], at) && forall|k: int|
                0 <= k < j ==> !hits_enemy(#[trigger] enemies[k], at),
            None => forall|k: int| 0 <= k < enemies.len() ==> !hits_enemy(#[trigger] enemies[k], at),
        },
    decreases enemies.len(),
{
    if enemies.len() > 0 {
        let before = enemies.drop_last();
        lemma_first_hit(before, at);
        match first_hit(before, at) {
            Some(j) => {
                assert forall|k: int| 0 <= k < j implies !hits_enemy(#[trigger] enemies[k], at) by {
                    assert(before[k] == enemies[k]);
                }
            },
            None => {
                assert forall|k: int| 0 <= k < before.len() implies !hits_enemy(
                    #[trigger] enemies[k],
                    at,
                ) by {
                    assert(before[k] == enemies[k]);
                }
            },
        }
    }
}

/// Projectiles move neither the player nor its hit box; they can only
/// take hit points from it.
pub proof fn lemma_hits_leave_the_player_in_place(
    start: Skirmish,
    projs: Seq<Projectile>,
    bounds: Rect<i64>,
    now: Timestamp,
    dt: Duration,
)
    ensures
        resolve_all(start, projs, bounds, now, dt).player.pos == start.player.pos,
        resolve_all(start, projs, bounds, now, dt).player.hitbox == start.player.hitbox,
        resolve_all(start, projs, bounds, now, dt).player.hp <= start.player.hp,
        resolve_all(start, projs, bounds, now, dt).enemies.len() == start.enemies.len(),
    decreases projs.len(),
{
    if projs.len() > 0 {
        lemma_hits_leave_the_player_in_place(start, projs.drop_last(), bounds, now, dt);
        let so_far = resolve_all(start, projs.drop_last(), bounds, now, dt);
        lemma_first_hit(so_far.enemies, projs.last().spec_advanced(dt).pos);
    }
}

/// A player that is in the arena is in the arena after an update.
pub proof fn lemma_player_stays_inside(world: WorldView, inputs: Inputs, now: Timestamp, dt: Duration)
    requires
        world.player.within(world.boundaries),
    ensures
        world.ticked(inputs, now, dt).boundaries == world.boundaries,
        world.ticked(inputs, now, dt).player.within(world.boundaries),
{
    let moved = world.events_processed(now).entities_updated(inputs, now, dt);
    let start = Skirmish { kept: Seq::empty(), enemies: moved.enemies, player: moved.player };
    lemma_hits_leave_the_player_in_place(start, moved.projectiles, moved.boundaries, now, dt);
}

/// An update takes no hit points from the player unless a projectile hits
/// it, and never gives it any; it never lowers the score.
pub proof fn lemma_update_only_costs(world: WorldView, inputs: Inputs, now: Timestamp, dt: Duration)
    ensures
        world.ticked(inputs, now, dt).player.hp <= world.player.hp,
        world.ticked(inputs, now, dt).score >= world.score,
{
    let moved = world.events_processed(now).entities_updated(inputs, now, dt);
    let start = Skirmish { kept: Seq::empty(), enemies: moved.enemies, player: moved.player };
    lemma_hits_leave_the_player_in_place(start, moved.projectiles, moved.boundaries, now, dt);
}

} // verus!
