//! A run of the game: the character on the map, the enemies and pickups,
//! levelling up, and when the run ends. Times are whole milliseconds on one
//! clock that the caller reads; the caller also scales the difficulty over
//! time (see `EnemyWrangler::set_scaling`).
use vstd::prelude::*;
use crate::chain::{all_on_map, on_map};
use crate::character::Character;
use crate::charms::{CharmWrapper, charm_inner_of, charm_kind_of, charm_stats};
use crate::coords::{Direction, Position, SquareArea, constrained_pos, max_int};
use crate::effects::{DamageArea, DamageEffect, effect_live, effect_updated};
use crate::enemy::{Enemy, EnemyDrops};
use crate::enemywrangler::{ENEMY_CAP, EnemyWrangler, layer_small, multiple_of, is_multiple_of, wrangler_ticked};
use crate::character::attacked;
use crate::weapons::{dealt_by, dealt_seq, dealt_through};
use crate::entities::EntityCharacters;
use crate::keys::Key;
use crate::level::Level;
use crate::map::{Layer, layer_height, layer_rectangular, layer_valid, layer_width};
use crate::pickups::{PickupWrangler, animated, orb_of, uncollected};
use crate::popups::{CarnageReport, PowerupPopup, all_charms_in, all_weapons_in};
use crate::rng::random_range_i32;
use crate::stats::Stats;
use crate::upgrades::{PlayerState, refresh_defined, refreshed_stats, same_player};
use crate::upgrade_menu::Goto;
use crate::utils::ticks_between;
use crate::view::{flatten, get_camera_area, overlays_of};

verus! {

/// How often the character attacks, in thousandths per second.
pub const DEFAULT_ATTACK_P_S: u64 = 1500;

/// Where a run stands.
#[derive(Clone, Copy, Debug, PartialEq, Eq, Structural)]
pub enum GameState {
    Paused,
    GameOver,
    Exit,
    Play,
}

/// The ticks between the character's attacks at attack speed multiplier
/// `mult` (thousandths): those of `DEFAULT_ATTACK_P_S` divided by the
/// multiplier, rounded up; `u64::MAX` at a multiplier of 0.
pub open spec fn attack_ticks_for(mult: int) -> int {
    let base = ticks_between(DEFAULT_ATTACK_P_S as int);
    if mult == 0 {
        u64::MAX as int
    } else {
        (base * 1000 + mult - 1) / mult
    }
}

/// The gold a drop of `gold` brings at gold multiplier `mult`
/// (thousandths), rounded down and held at `u128::MAX`.
pub open spec fn scaled_gold(gold: int, mult: int) -> int {
    if gold * mult / 1000 > u128::MAX { u128::MAX as int } else { gold * mult / 1000 }
}

/// The stats after each charm of the list, in order, has acted on them.
pub open spec fn stats_with_charms(s: Stats, cs: Seq<CharmWrapper>) -> Stats
    decreases cs.len(),
{
    if cs.len() == 0 {
        s
    } else {
        let prev = stats_with_charms(s, cs.drop_last());
        charm_stats(charm_kind_of(cs.last()), charm_inner_of(cs.last()).unwrap().stat_boost as int, prev)
    }
}

/// A background cell of a run: either kind, drawn dark gray.
pub open spec fn run_background(e: EntityCharacters) -> bool {
    let dark = crate::entities::Style { fg: Some(crate::entities::Color::DarkGray), ..crate::entities::plain_style() };
    e == EntityCharacters::Background1(dark) || e == EntityCharacters::Background2(dark)
}

/// `r` is a run just started at `now` for the player `p`: the player and
/// its starting copy as given; a map of the size the stats say, every cell
/// background; the character, carrying a FLASH and a PILLAR built on the
/// weapon stats and no charm, alive with the player's health and stats, at
/// a cell of the map having come from the origin; no enemy, effect, popup
/// or report; level 0; the stats' timer; the ticks between attacks that the
/// attack speed gives; and an orb somewhere on the map exactly where the
/// player owns upgrade "53" but not "A".
pub open spec fn fresh_run(r: Rogue, p: PlayerState, now: u64) -> bool {
    let c = r.character;
    let orb = p.upgrades.count("53"@) > 0 && p.upgrades.count("A"@) == 0;
    &&& same_player(r.player_state, p)
    &&& same_player(r.init_state, p)
    &&& r.width == p.stats.game_stats.width
    &&& r.height == p.stats.game_stats.height
    &&& r.game_state == GameState::Play
    &&& r.goto == Goto::Game
    &&& r.tickcount == 0
    &&& r.start_time == now
    &&& r.timer == if p.stats.game_stats.timer * 1000 > u64::MAX {
        u64::MAX as int
    } else {
        p.stats.game_stats.timer * 1000
    }
    &&& r.enemy_wrangler.enemies@.len() == 0
    &&& r.carnage_report is None
    &&& r.powerup_popup is None
    &&& !r.start_popup
    &&& r.active_damage_effects@.len() == 0
    &&& r.attack_ticks == attack_ticks_for(p.stats.game_stats.attack_speed_mult as int)
    &&& r.level.xp() == 0
    &&& r.level.level() == 0
    &&& r.level.xp_to_level() == 100
    &&& r.layer_base@.len() == p.stats.game_stats.height
    &&& forall|y: int, x: int|
        0 <= y < r.height && 0 <= x < r.width ==> run_background(#[trigger] r.layer_base@[y]@[x])
    &&& 0 <= c.position.0 < r.width
    &&& 0 <= c.position.1 < r.height
    &&& c.prev_position == Position(0, 0)
    &&& c.last_moved == now
    &&& c.facing == Direction::UP
    &&& c.stats == p.stats.player_stats
    &&& c.health == p.stats.player_stats.health
    &&& c.max_health == p.stats.player_stats.health
    &&& c.is_alive
    &&& c.entitychar == EntityCharacters::Character(crate::entities::plain_style())
    &&& c.charms@.len() == 0
    &&& c.weapons@.len() == 2
    &&& crate::weapons::kind_of(c.weapons@[0]) == crate::weapons::WeaponKind::Flash
    &&& crate::weapons::kind_of(c.weapons@[1]) == crate::weapons::WeaponKind::Pillar
    &&& crate::weapons::inner_of(c.weapons@[0]) == Some(
        crate::weapons::new_weapon(crate::weapons::WeaponKind::Flash, p.stats.weapon_stats),
    )
    &&& crate::weapons::inner_of(c.weapons@[1]) == Some(
        crate::weapons::new_weapon(crate::weapons::WeaponKind::Pillar, p.stats.weapon_stats),
    )
    &&& !r.pickup_wrangler.start_popup
    &&& r.pickup_wrangler.pickups@.len() == if orb { 1int } else { 0 }
    &&& orb ==> {
        let o = orb_of(r.pickup_wrangler.pickups@[0]);
        &&& o == crate::pickups::PowerupOrb {
            entity_char: EntityCharacters::Orb(crate::entities::plain_style()),
            position: o.position,
            pickup_effect: crate::pickups::PickupEffect::PowerupOrb,
            picked_up: false,
        }
        &&& 0 <= o.position.0 < r.width
        &&& 0 <= o.position.1 < r.height
    }
}

/// A run just started for one player is just started for any player with
/// the same inventory, stats and upgrades.
pub proof fn lemma_fresh_run_same_player(r: Rogue, p: PlayerState, q: PlayerState, now: u64)
    requires
        fresh_run(r, p, now),
        same_player(p, q),
    ensures
        fresh_run(r, q, now),
{
    assert(p.upgrades.lookup("53"@) == q.upgrades.lookup("53"@));
    assert(p.upgrades.lookup("A"@) == q.upgrades.lookup("A"@));
    assert forall|k: Seq<char>| #[trigger] r.player_state.upgrades.lookup(k) == q.upgrades.lookup(k) by {
        assert(r.player_state.upgrades.lookup(k) == p.upgrades.lookup(k));
        assert(p.upgrades.lookup(k) == q.upgrades.lookup(k));
    }
    assert forall|k: Seq<char>| #[trigger] r.init_state.upgrades.lookup(k) == q.upgrades.lookup(k) by {
        assert(r.init_state.upgrades.lookup(k) == p.upgrades.lookup(k));
        assert(p.upgrades.lookup(k) == q.upgrades.lookup(k));
    }
}

/// `height` rows of `width` background cells, each kind drawn at random.
fn background_layer(width: usize, height: usize) -> (res: Layer)
    ensures
        res@.len() == height,
        forall|y: int| 0 <= y < height ==> (#[trigger] res@[y])@.len() == width,
        forall|y: int, x: int| 0 <= y < height && 0 <= x < width ==> run_background(#[trigger] res@[y]@[x]),
{
    let mut base: Layer = Vec::new();
    let mut y: usize = 0;
    while y < height
        invariant
            y <= height,
            base@.len() == y,
            forall|r: int| 0 <= r < y ==> (#[trigger] base@[r])@.len() == width,
            forall|r: int, x: int| 0 <= r < y && 0 <= x < width ==> run_background(#[trigger] base@[r]@[x]),
        decreases height - y,
    {
        let mut row: Vec<EntityCharacters> = Vec::new();
        let mut x: usize = 0;
        while x < width
            invariant
                x <= width,
                row@.len() == x,
                forall|c: int| 0 <= c < x ==> run_background(#[trigger] row@[c]),
            decreases width - x,
        {
            let style = crate::entities::Style::new().fg(crate::entities::Color::DarkGray);
            if random_range_i32(0, 2) == 0 {
                row.push(EntityCharacters::Background1(style));
            } else {
                row.push(EntityCharacters::Background2(style));
            }
            x = x + 1;
        }
        base.push(row);
        y = y + 1;
    }
    base
}

/// The main game state and logic of a run.
pub struct Rogue {
    /// The player's current state, including stats and inventory.
    pub player_state: PlayerState,
    /// The player as the run began.
    pub init_state: PlayerState,
    /// The carnage report, which is displayed at the end of a run.
    pub carnage_report: Option<CarnageReport>,
    pub powerup_popup: Option<PowerupPopup>,
    pub character: Character,
    pub layer_base: Layer,
    pub tickcount: u64,
    pub height: usize,
    pub width: usize,
    pub enemy_wrangler: EnemyWrangler,
    pub attack_ticks: u64,
    pub game_state: GameState,
    pub goto: Goto,
    pub active_damage_effects: Vec<DamageEffect>,
    pub pickup_wrangler: PickupWrangler,
    pub level: Level,
    /// How long the run lasts.
    pub timer: u64,
    /// When the run began.
    pub start_time: u64,
    pub start_popup: bool,
    pub camera_area: SquareArea,
}

impl Rogue {
    /// The run is in a state its ticks can work with: a map of the run's
    /// size that `on_map` covers, everything on it, every weapon and charm
    /// slot filled, and upgrades whose stats can be worked out.
    pub open spec fn wf(&self) -> bool {
        &&& layer_small(&self.layer_base)
        &&& layer_rectangular(&self.layer_base)
        &&& layer_height(&self.layer_base) == self.height
        &&& layer_width(&self.layer_base) == self.width
        &&& all_on_map(self.enemy_wrangler.enemies@)
        &&& on_map(self.character.position)
        &&& self.character.position.0 < self.width
        &&& self.character.position.1 < self.height
        &&& all_weapons_in(self.character.weapons@)
        &&& all_charms_in(self.character.charms@)
        &&& refresh_defined(&self.player_state.upgrades)
        &&& self.powerup_popup matches Some(p) ==> all_weapons_in(p.weapons@) && all_charms_in(p.charms@)
    }

    /// A run for the player starting at `now`: a map of the size the stats
    /// say, filled with background; the character at a random cell; no
    /// enemy; level 0; lasting the stats' timer; and, where the player owns
    /// upgrade "53", an orb on the map. The map must fit the coordinates
    /// that `on_map` allows, and the weapon stats must leave room for the
    /// FLASH and the PILLAR built on them (base damage up to 3 added to the
    /// flat boost, base size up to 1 added to the size, in `i32`).
    pub fn new(player_state: &PlayerState, now: u64) -> (res: Rogue)
        requires
            refresh_defined(&player_state.upgrades),
            0 < player_state.stats.game_stats.width <= 0x4000_0000,
            0 < player_state.stats.game_stats.height <= 0x4000_0000,
            player_state.stats.weapon_stats.damage_flat_boost <= i32::MAX - 3,
            player_state.stats.weapon_stats.size <= i32::MAX - 1,
        ensures
            res.wf(),
            fresh_run(res, *player_state, now),
    {
        let init_state = player_state.duplicate();
        let state = player_state.duplicate();
        let width = state.stats.game_stats.width;
        let height = state.stats.game_stats.height;
        let base = background_layer(width, height);
        let secs = state.stats.game_stats.timer;
        let timer: u64 = if secs > u64::MAX / 1000 {
            u64::MAX
        } else {
            secs * 1000
        };
        let character = Character::new(&state, now);
        let enemy_wrangler = EnemyWrangler::new(&state.stats.game_stats);
        let mut game = Rogue {
            goto: Goto::Game,
            player_state: state,
            init_state,
            character,
            layer_base: base,
            height,
            width,
            attack_ticks: crate::utils::per_sec_to_tick_count_to_u64(DEFAULT_ATTACK_P_S),
            enemy_wrangler,
            start_popup: false,
            game_state: GameState::Play,
            carnage_report: None,
            powerup_popup: None,
            level: Level::new(),
            tickcount: 0,
            pickup_wrangler: PickupWrangler::new(),
            active_damage_effects: Vec::new(),
            start_time: now,
            timer,
            camera_area: SquareArea::new(Position(0, 0), Position(width as i32, height as i32)),
        };
        proof {
            assert(layer_rectangular(&game.layer_base));
        }
        game.init_character();
        assert(game.character.charms@.len() == 0);
        game.update_stats_with_charms();
        game.update_stats();
        if game.player_state.upgrade_owned("53") {
            let owns_levels = game.player_state.upgrade_owned("A");
            game.pickup_wrangler.spawn_orb(&game.layer_base, owns_levels);
        }
        proof {
            reveal_strlit("53");
            reveal_strlit("A");
            assert(game.player_state.upgrades.count("53"@) == player_state.upgrades.count("53"@));
            assert(game.player_state.upgrades.count("A"@) == player_state.upgrades.count("A"@));
        }
        game
    }

    /// Puts the character at a random cell of the map.
    pub fn init_character(&mut self)
        requires
            old(self).wf() || ({
                &&& layer_small(&old(self).layer_base)
                &&& layer_height(&old(self).layer_base) == old(self).height
                &&& layer_width(&old(self).layer_base) == old(self).width
            }),
            0 < old(self).width <= 0x4000_0000,
            0 < old(self).height <= 0x4000_0000,
        ensures
            final(self).goto == old(self).goto,
            *final(self) == (Rogue { character: final(self).character, ..*old(self) }),
            final(self).character == (Character {
                position: final(self).character.position,
                prev_position: old(self).character.position,
                ..old(self).character
            }),
            0 <= final(self).character.position.0 < old(self).width,
            0 <= final(self).character.position.1 < old(self).height,
    {
        let x = random_range_i32(0, self.width as i32);
        let y = random_range_i32(0, self.height as i32);
        self.character.set_pos(Position(x, y));
    }

    /// Applies every charm the character carries to the player's stats, in
    /// order (see `stats_with_charms`).
    pub fn update_stats_with_charms(&mut self)
        requires
            all_charms_in(old(self).character.charms@),
        ensures
            final(self).goto == old(self).goto,
            *final(self) == (Rogue {
                player_state: PlayerState { stats: final(self).player_state.stats, ..old(self).player_state },
                ..*old(self)
            }),
            final(self).player_state.stats == stats_with_charms(
                old(self).player_state.stats,
                old(self).character.charms@,
            ),
    {
        let ghost s0 = self.player_state.stats;
        let mut i: usize = 0;
        while i < self.character.charms.len()
            invariant
                i <= self.character.charms@.len(),
                all_charms_in(self.character.charms@),
                *self == (Rogue {
                    player_state: PlayerState { stats: self.player_state.stats, ..old(self).player_state },
                    ..*old(self)
                }),
                self.player_state.stats == stats_with_charms(s0, self.character.charms@.take(i as int)),
            decreases self.character.charms@.len() - i,
        {
            proof {
                assert(self.character.charms@.take(i + 1).drop_last() =~= self.character.charms@.take(i as int));
                assert(charm_inner_of(self.character.charms@[i as int]) is Some);
            }
            let charm = self.character.charms[i];
            charm.manipulate_stats(&mut self.player_state.stats);
            i = i + 1;
        }
        assert(self.character.charms@.take(i as int) =~= self.character.charms@);
    }

    /// Sets the ticks between the character's attacks from the attack speed
    /// multiplier (see `attack_ticks_for`).
    pub fn update_stats(&mut self)
        ensures
            final(self).goto == old(self).goto,
            *final(self) == (Rogue {
                attack_ticks: attack_ticks_for(old(self).player_state.stats.game_stats.attack_speed_mult as int)
                    as u64,
                ..*old(self)
            }),
            final(self).attack_ticks == attack_ticks_for(old(self).player_state.stats.game_stats.attack_speed_mult as int),
    {
        let base = crate::utils::per_sec_to_tick_count_to_u64(DEFAULT_ATTACK_P_S);
        assert(base == 14);
        let mult = self.player_state.stats.game_stats.attack_speed_mult;
        proof {
            if mult > 0 {
                assert((14 * 1000 + mult - 1) / (mult as int) <= 14000) by (nonlinear_arith)
                    requires mult >= 1;
                assert((14 * 1000 + mult - 1) / (mult as int) >= 0) by (nonlinear_arith)
                    requires mult >= 1;
            }
        }
        self.attack_ticks = if mult == 0 {
            u64::MAX
        } else {
            ((base as u128 * 1000 + mult as u128 - 1) / mult as u128) as u64
        };
    }

    /// Adds what a dead enemy drops: its gold times the gold multiplier
    /// (see `scaled_gold`; the sum held at `u128::MAX`), and its experience.
    pub fn consume_drops(&mut self, drops: &EnemyDrops)
        ensures
            final(self).goto == old(self).goto,
            *final(self) == (Rogue {
                player_state: PlayerState {
                    inventory: crate::stats::Inventory {
                        gold: crate::stats::saturating_add_u128(
                            old(self).player_state.inventory.gold as int,
                            scaled_gold(drops.gold as int, old(self).player_state.stats.game_stats.gold_mult as int),
                        ) as u128,
                    },
                    ..old(self).player_state
                },
                level: final(self).level,
                ..*old(self)
            }),
            final(self).level.xp() == if old(self).level.xp() + drops.xp > u128::MAX {
                u128::MAX as int
            } else {
                old(self).level.xp() + drops.xp
            },
            final(self).level.level() == old(self).level.level(),
            final(self).level.xp_to_level() == old(self).level.xp_to_level(),
    {
        let gained = scale_gold(drops.gold, self.player_state.stats.game_stats.gold_mult);
        self.player_state.inventory.gold = self.player_state.inventory.gold.saturating_add(gained);
        self.level.add_xp(drops.xp);
    }
}



/// `f` is the character `c` after trying to move one step in the direction
/// at time `now`: it turns that way, and once its move timeout has passed
/// since its last move it also steps (see `step_on`).
pub open spec fn moved(c: Character, f: Character, direction: Direction, layer: &Layer, now: u64) -> bool {
    let target = step_on(c.position, direction, layer);
    let waited = if now >= c.last_moved { now - c.last_moved } else { 0 };
    if waited > crate::character::move_timeout(c.stats.movement_speed_mult as int) {
        f == (Character { facing: direction, position: target, prev_position: c.position, last_moved: now, ..c })
    } else {
        f == (Character { facing: direction, ..c })
    }
}

/// The position one step from `p` in the direction, negative coordinates
/// raised to 0, then held to the layer.
pub open spec fn step_on(p: Position, d: Direction, layer: &Layer) -> Position {
    let (x, y) = (p.0 as int, p.1 as int);
    let q = match d {
        Direction::LEFT => Position(max_int(x - 1, 0) as i32, max_int(y, 0) as i32),
        Direction::RIGHT => Position(max_int(x + 1, 0) as i32, max_int(y, 0) as i32),
        Direction::UP => Position(max_int(x, 0) as i32, max_int(y - 1, 0) as i32),
        Direction::DOWN => Position(max_int(x, 0) as i32, max_int(y + 1, 0) as i32),
    };
    constrained_pos(q, layer)
}

/// Moves the character one step in the direction, held to the layer; the
/// move is subject to the character's move timeout (see
/// `Character::move_to`).
pub fn move_entity(layer: &Layer, entity: &mut Character, direction: Direction, now: u64)
    requires
        layer_small(layer),
        on_map(old(entity).position),
    ensures
        moved(*old(entity), *final(entity), direction, layer, now),
{
    let (x, y) = entity.get_pos().get();
    let mut new_pos = match direction {
        Direction::LEFT => Position::new(x - 1, y),
        Direction::RIGHT => Position::new(x + 1, y),
        Direction::UP => Position::new(x, y - 1),
        Direction::DOWN => Position::new(x, y + 1),
    };
    new_pos.constrain(layer);
    if crate::utils::can_stand_on_layer(layer, &new_pos) {
        entity.move_to(new_pos, direction, now);
    } else {
        let here = entity.get_pos();
        entity.move_to(here, direction, now);
    }
}

impl Rogue {
    /// The character's current position.
    pub fn get_character_pos(&self) -> (res: Position)
        ensures
            res == self.character.position,
    {
        self.character.get_pos()
    }

    /// The positions of the enemies, in order.
    pub fn get_enemy_positions(&self) -> (res: Vec<Position>)
        ensures
            res@ == crate::enemywrangler::positions_of(self.enemy_wrangler.enemies@),
    {
        self.enemy_wrangler.get_enemy_positions()
    }

    /// Pauses the run and opens the power-up popup over the character's
    /// weapons and charms and the player's weapon stats.
    pub fn generate_popup(&mut self)
        requires
            old(self).wf(),
        ensures
            final(self).goto == old(self).goto,
            final(self).wf(),
            final(self).game_state == GameState::Paused,
            !final(self).start_popup,
            final(self).powerup_popup matches Some(p) && {
                &&& p.weapons@ == old(self).character.weapons@
                &&& p.charms@ == old(self).character.charms@
                &&& p.base_weapon_stats == old(self).player_state.stats.weapon_stats
                &&& !p.finished
            },
            *final(self) == (Rogue {
                game_state: GameState::Paused,
                powerup_popup: final(self).powerup_popup,
                start_popup: false,
                ..*old(self)
            }),
    {
        self.game_state = GameState::Paused;
        let popup = PowerupPopup::new(
            &self.character.weapons,
            &self.character.charms,
            self.player_state.stats.weapon_stats,
            self.player_state.stats.game_stats.max_method_level,
            self.player_state.stats.game_stats.max_charm_level,
        );
        self.powerup_popup = Some(popup);
        self.start_popup = false;
    }

    /// Closes a finished power-up popup: the run goes on with the weapons
    /// and charms chosen, the stats are worked out anew from the upgrades
    /// and the charms, and the player owns upgrade "A" (see
    /// `popup_closed`). An unfinished popup stays.
    pub fn handle_popup(&mut self)
        requires
            old(self).wf(),
        ensures
            final(self).goto == old(self).goto,
            final(self).wf(),
            final(self).tickcount == old(self).tickcount,
            final(self).init_state == old(self).init_state,
            final(self).timer == old(self).timer,
            final(self).start_time == old(self).start_time,
            popup_closed(*old(self), *final(self)),
    {
        let popup = self.powerup_popup.take();
        match popup {
            Some(powerup_popup) => {
                if powerup_popup.finished {
                    self.game_state = GameState::Play;
                    self.character.weapons = powerup_popup.weapons;
                    self.character.charms = powerup_popup.charms;
                    self.player_state.refresh();
                    self.update_stats_with_charms();
                    self.update_stats();
                    let ghost before = self.player_state.upgrades;
                    let a_id = "A".to_owned();
                    proof {
                        reveal_strlit("A");
                        reveal_strlit("311");
                        assert(a_id@ == "A"@);
                        assert(a_id@.len() == 1);
                        assert("311"@.len() == 3);
                    }
                    self.player_state.upgrades.insert(a_id, 1);
                    proof {
                        assert(self.player_state.upgrades.lookup("A"@) == Some(1u32));
                        reveal_strlit("A");
                        reveal_strlit("311");
                        reveal_strlit("312");
                        reveal_strlit("41");
                        reveal_strlit("42");
                        reveal_strlit("51");
                        reveal_strlit("52");
                        reveal_strlit("221");
                        reveal_strlit("12");
                        reveal_strlit("13");
                        assert(self.player_state.upgrades.lookup("311"@) == before.lookup("311"@));
                        assert(self.player_state.upgrades.lookup("312"@) == before.lookup("312"@));
                        assert(self.player_state.upgrades.lookup("41"@) == before.lookup("41"@));
                        assert(self.player_state.upgrades.lookup("42"@) == before.lookup("42"@));
                        assert(self.player_state.upgrades.lookup("51"@) == before.lookup("51"@));
                        assert(self.player_state.upgrades.lookup("52"@) == before.lookup("52"@));
                        assert(self.player_state.upgrades.lookup("221"@) == before.lookup("221"@));
                        assert(self.player_state.upgrades.lookup("12"@) == before.lookup("12"@));
                        assert(self.player_state.upgrades.lookup("13"@) == before.lookup("13"@));
                    }
                } else {
                    self.powerup_popup = Some(powerup_popup);
                }
            },
            None => {},
        }
    }
}


/// `m` is the run `o` once a finished power-up popup is closed (see
/// `Rogue::handle_popup`): play goes on with the weapons and charms chosen,
/// the stats are worked out anew from the upgrades and then the charms, the
/// ticks between attacks follow the new attack speed, and upgrade "A" is
/// recorded as owned once; nothing else changes. Without a finished popup
/// the run stays as it is.
pub open spec fn popup_closed(o: Rogue, m: Rogue) -> bool {
    match o.powerup_popup {
        Some(p) => if p.finished {
            let stats = stats_with_charms(refreshed_stats(&o.player_state.upgrades), p.charms@);
            &&& m == Rogue {
                game_state: GameState::Play,
                powerup_popup: None,
                character: Character {
                    weapons: m.character.weapons,
                    charms: m.character.charms,
                    ..o.character
                },
                player_state: PlayerState {
                    stats: stats,
                    upgrades: m.player_state.upgrades,
                    ..o.player_state
                },
                attack_ticks: attack_ticks_for(stats.game_stats.attack_speed_mult as int) as u64,
                ..o
            }
            &&& m.character.weapons@ == p.weapons@
            &&& m.character.charms@ == p.charms@
            &&& forall|k: Seq<char>|
                #[trigger] m.player_state.upgrades.lookup(k) == if k == "A"@ {
                    Some(1u32)
                } else {
                    o.player_state.upgrades.lookup(k)
                }
        } else {
            m == o
        },
        None => m == o,
    }
}

/// `a - b`, held at 0.
pub open spec fn elapsed(now: int, start: int) -> int {
    if now >= start { now - start } else { 0 }
}

impl Rogue {
    /// One tick of the run at time `now`. A finished popup is closed first
    /// (see `handle_popup`). A paused or left run does nothing more; an
    /// ended run makes its carnage report. A run in play counts the tick,
    /// ends once its time is up or the character is dead, levels up
    /// (opening the power-up popup, as a collected orb does), lets the
    /// pickups and enemies act (see `PickupWrangler::on_tick` and
    /// `EnemyWrangler::on_tick`), takes their drops (see `consume_drops`),
    /// and on every `attack_ticks`-th tick lets the character attack (see
    /// `Character::attack`), dealing each area to the enemies and showing
    /// it.
    #[verifier::rlimit(60)]
    pub fn on_tick(&mut self, now: u64)
        requires
            old(self).wf(),
            old(self).tickcount < u64::MAX,
        ensures
            final(self).wf(),
            ticked(*old(self), *final(self), now),
    {
        self.handle_popup();
        let ghost m = *self;
        assert(popup_closed(*old(self), m));
        match self.game_state {
            GameState::Paused | GameState::Exit => {},
            GameState::GameOver => {
                let report = CarnageReport::new(self.init_state.duplicate(), self.player_state.duplicate());
                self.carnage_report = Some(report);
            },
            GameState::Play => {
                self.tickcount = self.tickcount + 1;
                if self.pickup_wrangler.start_popup {
                    self.start_popup = true;
                    self.pickup_wrangler.start_popup = false;
                }
                let waited = if now >= self.start_time { now - self.start_time } else { 0 };
                if waited >= self.timer {
                    self.game_state = GameState::GameOver;
                    return;
                }
                if !self.character.is_alive() {
                    self.game_state = GameState::GameOver;
                    return;
                }
                if self.level.get_level() < i32::MAX {
                    if self.level.update().is_some() {
                        self.start_popup = true;
                    }
                }
                if self.start_popup {
                    self.generate_popup();
                }
                let char_pos = self.get_character_pos();
                let ghost ae0 = self.active_damage_effects@;
                let ghost x0 = self.level.xp();
                let ghost xt = self.level.xp_to_level();
                let ghost up0 = self.player_state.upgrades;
                self.pickup_wrangler.on_tick(
                    self.tickcount,
                    &char_pos,
                    &mut self.active_damage_effects,
                    self.width,
                    self.height,
                    now,
                );
                let ghost ae1 = self.active_damage_effects@;
                let ghost flashes = ae1.subrange(ae0.len() as int, ae1.len() as int);
                proof {
                    assert(ae1 =~= ae0.add(flashes));
                }
                let ghost gs = self.game_state;
                let ghost pop = self.powerup_popup;
                let ghost pw = self.pickup_wrangler;
                let ghost sp = self.start_popup;
                let ghost lv = self.level.level();
                let stats = self.player_state.stats.player_stats;
                let ghost wa = self.enemy_wrangler;
                let ghost ca = self.character;
                let ghost g0 = self.player_state.inventory.gold;
                let ghost pstats = self.player_state.stats;
                let ghost at = self.attack_ticks;
                let drops = self.enemy_wrangler.on_tick(
                    self.tickcount,
                    &mut self.character,
                    &self.layer_base,
                    &mut self.active_damage_effects,
                    &stats,
                    self.width as i32,
                    self.height as i32,
                    now,
                );
                let ghost ae2 = self.active_damage_effects@;
                proof {
                    assert(ae2.take(ae1.len() as int) == ae0.add(flashes));
                }
                let ghost w1 = self.enemy_wrangler;
                let ghost c1 = self.character;
                let ghost tc = self.tickcount;
                let ghost lb = self.layer_base;
                proof {
                    assert(wrangler_ticked(
                        wa,
                        w1,
                        ca,
                        c1,
                        drops@,
                        tc,
                        &lb,
                        stats,
                        self.width as i32,
                        self.height as i32,
                    ));
                }
                let mut i: usize = 0;
                while i < drops.len()
                    invariant
                        i <= drops@.len(),
                        self.enemy_wrangler == w1,
                        self.character == c1,
                        self.layer_base == lb,
                        self.attack_ticks == at,
                        self.player_state.stats == pstats,
                        self.player_state.inventory.gold == gold_after(
                            g0 as int,
                            drops@.take(i as int),
                            pstats.game_stats.gold_mult as int,
                        ),
                        self.wf(),
                        self.tickcount == old(self).tickcount + 1,
                        self.goto == old(self).goto,
                        self.player_state.inventory.gold >= old(self).player_state.inventory.gold,
                        old(self).enemy_wrangler.enemies@.len() <= ENEMY_CAP ==> self.enemy_wrangler.enemies@.len()
                            <= ENEMY_CAP,
                        self.game_state == gs,
                        self.powerup_popup == pop,
                        self.pickup_wrangler == pw,
                        self.start_popup == sp,
                        self.level.level() == lv,
                        self.level.xp() == xp_after(x0, drops@.take(i as int)),
                        self.level.xp_to_level() == xt,
                        self.player_state.upgrades == up0,
                        self.active_damage_effects@ == ae2,
                    decreases drops@.len() - i,
                {
                    proof {
                        assert(drops@.take(i + 1).drop_last() =~= drops@.take(i as int));
                        assert(drops@.take(i + 1).last() == drops@[i as int]);
                    }
                    self.consume_drops(&drops[i]);
                    i = i + 1;
                }
                proof {
                    assert(drops@.take(drops@.len() as int) =~= drops@);
                }
                let ghost g1 = self.player_state.inventory.gold;
                let ghost lvl1 = self.level;
                let ghost mut gareas: Seq<DamageArea> = Seq::empty();
                let ghost mut geffs: Seq<DamageEffect> = Seq::empty();
                if is_multiple_of(self.tickcount, self.attack_ticks) && self.character.weapons.len() as u64
                    <= (u64::MAX - now) / 150 {
                    let damage_mult = self.player_state.stats.player_stats.damage_mult;
                    let ghost wbefore = self.character.weapons@;
                    let ghost ebefore = self.enemy_wrangler.enemies@;
                    let (damage_areas, mut damage_effects) = self.character.attack(
                        &self.layer_base,
                        &self.enemy_wrangler.enemies,
                        damage_mult,
                        now,
                    );
                    let ghost c2 = self.character;
                    let ghost effs = damage_effects@;
                    proof {
                        gareas = damage_areas@;
                        geffs = effs;
                    }
                    assert(attacked(c1, c2, &self.layer_base, w1.enemies@, damage_mult, now, damage_areas@, effs));
                    proof {
                        assert forall|q: int| 0 <= q < self.character.weapons@.len() implies (#[trigger] crate::weapons::inner_of(
                            self.character.weapons@[q],
                        )) is Some by {
                            let w = wbefore[q];
                            assert(crate::weapons::inner_of(w) is Some);
                            if crate::character::attack_ready(w, ebefore, c1.position) {
                            } else {
                            }
                        }
                    }
                    let ghost mut states: Seq<Seq<Enemy>> = seq![w1.enemies@];
                    let mut k: usize = 0;
                    while k < damage_areas.len()
                        invariant
                            k <= damage_areas@.len(),
                            self.wf(),
                            self.tickcount == old(self).tickcount + 1,
                            self.goto == old(self).goto,
                            self.player_state.inventory.gold >= old(self).player_state.inventory.gold,
                            old(self).enemy_wrangler.enemies@.len() <= ENEMY_CAP ==> self.enemy_wrangler.enemies@.len()
                                <= ENEMY_CAP,
                            self.game_state == gs,
                            self.powerup_popup == pop,
                            self.pickup_wrangler == pw,
                            self.start_popup == sp,
                            self.level.level() == lv,
                            self.character == c2,
                            self.layer_base == lb,
                            self.player_state.stats == pstats,
                            self.player_state.inventory.gold == g1,
                            self.level == lvl1,
                            self.player_state.upgrades == up0,
                            self.active_damage_effects@ == ae2,
                            damage_effects@ == effs,
                            self.enemy_wrangler == (EnemyWrangler { enemies: self.enemy_wrangler.enemies, ..w1 }),
                            dealt_through(damage_areas@.take(k as int), states),
                            states[0] == w1.enemies@,
                            states.last() == self.enemy_wrangler.enemies@,
                        decreases damage_areas@.len() - k,
                    {
                        let ghost before = self.enemy_wrangler.enemies@;
                        damage_areas[k].deal_damage(&mut self.enemy_wrangler.enemies);
                        proof {
                            let t = damage_areas@.take(k + 1);
                            let s0 = states;
                            states = states.push(self.enemy_wrangler.enemies@);
                            assert(dealt_by(damage_areas@[k as int], before, self.enemy_wrangler.enemies@));
                            assert forall|q: int| 0 <= q < t.len() implies dealt_by(#[trigger] t[q], states[q], states[q + 1]) by {
                                if q < k {
                                    assert(t[q] == damage_areas@.take(k as int)[q]);
                                }
                            }
                        }
                        proof {
                            assert forall|q: int|
                                0 <= q < self.enemy_wrangler.enemies@.len() implies on_map(
                                    #[trigger] self.enemy_wrangler.enemies@[q].position,
                                ) by {
                                assert(on_map(before[q].position));
                            }
                        }
                        k = k + 1;
                    }
                    proof {
                        assert(damage_areas@.take(damage_areas@.len() as int) =~= damage_areas@);
                        assert(dealt_through(damage_areas@, states));
                        assert(dealt_seq(damage_areas@, w1.enemies@, self.enemy_wrangler.enemies@));
                    }
                    let ghost before_effects = self.active_damage_effects@;
                    self.active_damage_effects.append(&mut damage_effects);
                    proof {
                        assert(self.active_damage_effects@.subrange(
                            self.active_damage_effects@.len() - effs.len(),
                            self.active_damage_effects@.len() as int,
                        ) =~= effs);
                        {
                            assert(attacked(
                                c1,
                                self.character,
                                &m.layer_base,
                                w1.enemies@,
                                m.player_state.stats.player_stats.damage_mult,
                                now,
                                gareas,
                                geffs,
                            ));
                        }
                    }
                }
                proof {
                    {
                    assert(wrangler_ticked(
                        m.enemy_wrangler,
                        w1,
                        m.character,
                        c1,
                        drops@,
                        (m.tickcount + 1) as u64,
                        &m.layer_base,
                        m.player_state.stats.player_stats,
                        m.width as i32,
                        m.height as i32,
                    ));
                    }
                    assert(drops@.take(drops@.len() as int) =~= drops@);
                    assert(self.level.xp() == xp_after(x0, drops@));
                    assert(self.level.xp_to_level() == xt);
                    assert(self.player_state.upgrades == up0);
                    assert(self.active_damage_effects@.take((ae0.len() + flashes.len()) as int) == ae0.add(flashes));
                }
            },
        }
    }

    /// Reacts to a key at time `now`: with the carnage report shown, Esc
    /// leaves for the upgrade menu; with the power-up popup open, the popup
    /// takes the key (see `PowerupPopup::handle_key_event`); otherwise `w`
    /// `a` `s` `d` and the arrows move the character (see `move_entity`)
    /// and Esc ends the run.
    pub fn key_event(&mut self, key: Key, now: u64)
        requires
            old(self).wf(),
        ensures
            final(self).wf(),
            keyed(*old(self), *final(self), key, now),
    {
        if self.carnage_report.is_some() {
            if key == Key::Esc {
                self.game_state = GameState::Exit;
                self.goto = Goto::Upgrades;
            }
        } else if self.powerup_popup.is_some() {
            let mut popup = self.powerup_popup.take().unwrap();
            popup.handle_key_event(key);
            self.powerup_popup = Some(popup);
        } else {
            match key {
                Key::Char('s') | Key::Down => {
                    move_entity(&self.layer_base, &mut self.character, Direction::DOWN, now);
                },
                Key::Char('w') | Key::Up => {
                    move_entity(&self.layer_base, &mut self.character, Direction::UP, now);
                },
                Key::Char('d') | Key::Right => {
                    move_entity(&self.layer_base, &mut self.character, Direction::RIGHT, now);
                },
                Key::Char('a') | Key::Left => {
                    move_entity(&self.layer_base, &mut self.character, Direction::LEFT, now);
                },
                Key::Esc => self.game_state = GameState::GameOver,
                _ => {},
            }
        }
    }

    /// Advances the effects to `now` during play, drops those complete, and
    /// points the camera at the character for a view of the given size (see
    /// `camera_area`).
    pub fn on_frame(&mut self, now: u64, view_width: u16, view_height: u16)
        requires
            old(self).wf(),
        ensures
            final(self).wf(),
            framed(*old(self), *final(self), now, view_width, view_height),
    {
        if self.game_state == GameState::Play {
            let mut kept: Vec<DamageEffect> = Vec::new();
            let ghost orig = self.active_damage_effects@;
            let ghost n = orig.len();
            let ghost live = effect_live(now as int);
            while self.active_damage_effects.len() > 0
                invariant
                    self.wf(),
                    *self == (Rogue { active_damage_effects: self.active_damage_effects, ..*old(self) }),
                    orig == old(self).active_damage_effects@,
                    n == orig.len(),
                    live == effect_live(now as int),
                    self.active_damage_effects@.len() <= n,
                    self.active_damage_effects@ == orig.subrange(n - self.active_damage_effects@.len(), n as int),
                    kept@.len() == orig.take(n - self.active_damage_effects@.len()).filter(live).len(),
                    forall|i: int|
                        0 <= i < kept@.len() ==> effect_updated(
                            orig.take(n - self.active_damage_effects@.len()).filter(live)[i],
                            #[trigger] kept@[i],
                            now as int,
                        ),
                    forall|i: int| 0 <= i < kept@.len() ==> !(#[trigger] kept@[i]).complete,
                decreases self.active_damage_effects@.len(),
            {
                let ghost c = n - self.active_damage_effects@.len();
                let ghost before = kept@;
                let mut effect = self.active_damage_effects.remove(0);
                assert(effect == orig[c]);
                effect.update(now);
                proof {
                    reveal_with_fuel(Seq::filter, 1);
                    assert(orig.take(c + 1).drop_last() =~= orig.take(c));
                    assert(orig.take(c + 1).last() == orig[c]);
                    assert(self.active_damage_effects@ =~= orig.subrange(c + 1, n as int));
                }
                if !effect.complete {
                    kept.push(effect);
                }
                proof {
                    assert(n - self.active_damage_effects@.len() == c + 1);
                    assert forall|i: int| 0 <= i < kept@.len() implies effect_updated(
                        orig.take(c + 1).filter(live)[i],
                        #[trigger] kept@[i],
                        now as int,
                    ) by {
                        if i < before.len() {
                            assert(kept@[i] == before[i]);
                        }
                    }
                }
            }
            assert(orig.take(n as int) =~= orig);
            self.active_damage_effects = kept;
            self.camera_area = get_camera_area(view_width, view_height, &self.character.position, &self.layer_base);
        }
    }

    /// The cells shown of the map inside `area` (the whole map where
    /// `None`), with the pickups, enemies, effects and, on top of all, the
    /// character drawn over the background (see `flatten` and
    /// `overlays_of`).
    pub fn flatten_to_span(&self, area: Option<SquareArea>) -> (res: Vec<Vec<EntityCharacters>>)
        requires
            self.wf(),
            area matches Some(a) ==> crate::coords::square_bounds(a).0 >= 0 && crate::coords::square_bounds(a).1 >= 0,
        ensures
            ({
                let overlays = crate::view::overlays(
                    &self.layer_base,
                    self.pickup_wrangler.pickups@,
                    self.enemy_wrangler.enemies@,
                    self.active_damage_effects@,
                    self.character,
                );
                let (ylo, yhi) = crate::view::shown_rows(area, &self.layer_base);
                let (xlo, xhi) = crate::view::shown_cols(area, &self.layer_base);
                &&& res@.len() == max_int(yhi - ylo + 1, 0)
                &&& forall|r: int|
                    0 <= r < res@.len() ==> {
                        &&& (#[trigger] res@[r])@.len() == max_int(xhi - xlo + 1, 0)
                        &&& forall|c: int|
                            0 <= c < res@[r]@.len() ==> #[trigger] res@[r]@[c] == crate::view::top_entity(
                                overlays,
                                Position((xlo + c) as i32, (ylo + r) as i32),
                                self.layer_base@[ylo + r]@[xlo + c],
                            )
                    }
            }),
    {
        let overlays = overlays_of(
            &self.layer_base,
            &self.pickup_wrangler.pickups,
            &self.enemy_wrangler.enemies,
            &self.active_damage_effects,
            &self.character,
        );
        flatten(&self.layer_base, area, &overlays)
    }
}

/// The gold of `scaled_gold`.
pub fn scale_gold(gold: u128, mult: u64) -> (res: u128)
    ensures
        res == scaled_gold(gold as int, mult as int),
{
    let q = gold / 1000;
    let r = gold % 1000;
    let m = mult as u128;
    proof {
        vstd::arithmetic::div_mod::lemma_fundamental_div_mod(gold as int, 1000);
        assert(0 <= r * m <= 999 * 0xffff_ffff_ffff_ffff) by (nonlinear_arith)
            requires 0 <= r < 1000, 0 <= m <= 0xffff_ffff_ffff_ffff;
        assert(gold * m == 1000 * (q * m) + r * m) by (nonlinear_arith)
            requires gold == 1000 * q + r;
    }
    let low = r * m / 1000;
    proof {
        vstd::arithmetic::div_mod::lemma_hoist_over_denominator((r * m) as int, (q * m) as int, 1000);
        assert((r * m) as int + (q * m) * 1000 == 1000 * (q * m) + r * m);
    }
    if m != 0 && q > u128::MAX / m {
        proof {
            assert(q * m > u128::MAX) by (nonlinear_arith)
                requires q > u128::MAX / m, m > 0;
        }
        u128::MAX
    } else {
        proof {
            assert(q * m <= u128::MAX) by (nonlinear_arith)
                requires m == 0 || q <= u128::MAX / m, m >= 0, q >= 0;
        }
        let high = q * m;
        high.saturating_add(low)
    }
}
/// The gold after taking each drop in turn (see `Rogue::consume_drops`).
pub open spec fn gold_after(gold: int, drops: Seq<EnemyDrops>, mult: int) -> int
    decreases drops.len(),
{
    if drops.len() == 0 {
        gold
    } else {
        crate::stats::saturating_add_u128(
            gold_after(gold, drops.drop_last(), mult),
            scaled_gold(drops.last().gold as int, mult),
        )
    }
}

/// The experience after taking each drop in turn (see
/// `Rogue::consume_drops`), each sum held at `u128::MAX`.
pub open spec fn xp_after(xp: int, drops: Seq<EnemyDrops>) -> int
    decreases drops.len(),
{
    if drops.len() == 0 {
        xp
    } else {
        crate::stats::saturating_add_u128(xp_after(xp, drops.drop_last()), drops.last().xp as int)
    }
}

/// `f` is the run `o` after a tick at time `now` (see `Rogue::on_tick`): a
/// finished power-up popup is closed first (see `popup_closed`), and the
/// run so reached takes the tick (see `ticked_from`).
pub open spec fn ticked(o: Rogue, f: Rogue, now: u64) -> bool {
    &&& f.goto == o.goto
    &&& f.player_state.inventory.gold >= o.player_state.inventory.gold
    &&& o.enemy_wrangler.enemies@.len() <= ENEMY_CAP ==> f.enemy_wrangler.enemies@.len()
        <= ENEMY_CAP
    &&& exists|m: Rogue| #[trigger] popup_closed(o, m) && ticked_from(m, f, now)
}

/// `f` is the run `o`, which has no finished popup open, after a tick at
/// time `now`: a paused or left run stays as it is; an ended run makes its
/// carnage report; a run in play counts the tick and, while its time lasts
/// and the character lives, lets the pickups, the enemies and then the
/// character act.
pub open spec fn ticked_from(o: Rogue, f: Rogue, now: u64) -> bool {
    match o.game_state {
        GameState::Paused | GameState::Exit => f == o,
        GameState::GameOver => {
            &&& f == Rogue { carnage_report: f.carnage_report, ..o }
            &&& f.game_state == GameState::GameOver
            &&& f.tickcount == o.tickcount
            &&& f.carnage_report matches Some(r) && same_player(
                r.prev_player_state,
                o.init_state,
            ) && same_player(r.new_player_state, o.player_state)
        },
        GameState::Play => {
            &&& f.tickcount == o.tickcount + 1
            &&& elapsed(now as int, o.start_time as int) >= o.timer ==> {
                &&& f.game_state == GameState::GameOver
                &&& f.character == o.character
                &&& f.player_state == o.player_state
            }
            &&& elapsed(now as int, o.start_time as int) < o.timer
                && !o.character.is_alive ==> {
                &&& f.game_state == GameState::GameOver
                &&& f.character == o.character
            }
            &&& elapsed(now as int, o.start_time as int) < o.timer
                && o.character.is_alive ==> {
                let levels_up = o.level.xp() >= o.level.xp_to_level()
                    && o.level.level() < i32::MAX;
                let popup = o.start_popup || o.pickup_wrangler.start_popup
                    || levels_up;
                let pos = o.character.position;
                &&& popup ==> f.game_state == GameState::Paused
                    && f.powerup_popup is Some
                &&& !popup ==> f.game_state == GameState::Play
                    && f.powerup_popup == o.powerup_popup
                &&& !f.start_popup
                &&& f.level.level() == o.level.level() + if levels_up {
                    1int
                } else {
                    0
                }
                &&& f.level.xp_to_level() == if levels_up {
                    crate::level::next_xp_to_level(o.level.xp_to_level())
                } else {
                    o.level.xp_to_level()
                }
                &&& f.player_state.stats == o.player_state.stats
                &&& f.player_state.upgrades == o.player_state.upgrades
                &&& exists|flashes: Seq<DamageEffect>|
                    #![trigger o.active_damage_effects@.add(flashes)]
                    {
                        &&& forall|k: int|
                            0 <= k < flashes.len() ==> crate::pickups::pickup_flash(
                                #[trigger] flashes[k],
                                o.width as i32 as int,
                                o.height as i32 as int,
                                now as int,
                            )
                        &&& f.active_damage_effects@.len() >= o.active_damage_effects@.len() + flashes.len()
                        &&& f.active_damage_effects@.take((o.active_damage_effects@.len() + flashes.len()) as int)
                            == o.active_damage_effects@.add(flashes)
                    }
                &&& f.pickup_wrangler.pickups@ == o.pickup_wrangler.pickups@.filter(
                    uncollected(pos),
                ).map_values(animated(((o.tickcount + 1) % 1000) as u64))
                &&& exists|w1: EnemyWrangler, c1: Character, drops: Seq<EnemyDrops>|
                    #[trigger] wrangler_ticked(
                        o.enemy_wrangler,
                        w1,
                        o.character,
                        c1,
                        drops,
                        (o.tickcount + 1) as u64,
                        &o.layer_base,
                        o.player_state.stats.player_stats,
                        o.width as i32,
                        o.height as i32,
                    ) && f.player_state.inventory.gold == gold_after(
                        o.player_state.inventory.gold as int,
                        drops,
                        o.player_state.stats.game_stats.gold_mult as int,
                    ) && f.level.xp() == xp_after(if levels_up { 0 } else { o.level.xp() }, drops) && if multiple_of(o.tickcount + 1, o.attack_ticks as int) && c1.weapons@.len()
                        <= (u64::MAX - now) / 150 {
                        exists|areas: Seq<DamageArea>, effs: Seq<DamageEffect>|
                            #[trigger] attacked(
                                c1,
                                f.character,
                                &o.layer_base,
                                w1.enemies@,
                                o.player_state.stats.player_stats.damage_mult,
                                now,
                                areas,
                                effs,
                            ) && dealt_seq(areas, w1.enemies@, f.enemy_wrangler.enemies@)
                                && f.enemy_wrangler == (EnemyWrangler { enemies: f.enemy_wrangler.enemies, ..w1 })
                                && f.active_damage_effects@.len() >= effs.len()
                                && f.active_damage_effects@.subrange(
                                f.active_damage_effects@.len() - effs.len(),
                                f.active_damage_effects@.len() as int,
                            ) == effs
                    } else {
                        f.enemy_wrangler == w1 && f.character == c1
                    }
                &&& f.pickup_wrangler.start_popup == exists|i: int|
                    0 <= i < o.pickup_wrangler.pickups@.len() && #[trigger] orb_of(
                        o.pickup_wrangler.pickups@[i],
                    ).position == pos
            }
        },
    }
}

/// The way a movement key (`w` `a` `s` `d` or an arrow) moves, if it is one.
pub open spec fn key_direction(key: Key) -> Option<Direction> {
    match key {
        Key::Char('s') | Key::Down => Some(Direction::DOWN),
        Key::Char('w') | Key::Up => Some(Direction::UP),
        Key::Char('d') | Key::Right => Some(Direction::RIGHT),
        Key::Char('a') | Key::Left => Some(Direction::LEFT),
        _ => None,
    }
}

/// `f` is the run `o` after the key at time `now` (see `Rogue::key_event`).
pub open spec fn keyed(o: Rogue, f: Rogue, key: Key, now: u64) -> bool {
    &&& o.carnage_report is Some ==> {
        &&& key == Key::Esc ==> f.game_state == GameState::Exit && f.goto
            == Goto::Upgrades
        &&& key != Key::Esc ==> f.game_state == o.game_state
        &&& f.character == o.character
    }
    &&& o.carnage_report is None && o.powerup_popup is Some ==> {
        &&& f.powerup_popup matches Some(q) && crate::popups::key_handled(
            o.powerup_popup.unwrap(),
            q,
            key,
        )
        &&& f.character == o.character
        &&& f.game_state == o.game_state
    }
    &&& o.carnage_report is None && o.powerup_popup is None ==> {
        &&& key == Key::Esc ==> f.game_state == GameState::GameOver
        &&& key_direction(key) matches Some(d) ==> {
            &&& moved(o.character, f.character, d, &o.layer_base, now)
            &&& f == Rogue { character: f.character, ..o }
        }
    }
}

/// `f` is the run `o` after a frame at time `now` for a view of the given
/// size (see `Rogue::on_frame`).
pub open spec fn framed(o: Rogue, f: Rogue, now: u64, view_width: u16, view_height: u16) -> bool {
    &&& f.goto == o.goto
    &&& f.game_state == o.game_state
    &&& f.character == o.character
    &&& o.game_state == GameState::Play ==> {
        &&& f.camera_area == crate::view::camera_area(
            view_width as int,
            view_height as int,
            o.character.position,
            o.width as int,
            o.height as int,
        )
        &&& f.active_damage_effects@.len() == o.active_damage_effects@.filter(
            effect_live(now as int),
        ).len()
        &&& forall|i: int|
            0 <= i < f.active_damage_effects@.len() ==> effect_updated(
                o.active_damage_effects@.filter(effect_live(now as int))[i],
                #[trigger] f.active_damage_effects@[i],
                now as int,
            )
        &&& forall|i: int|
            0 <= i < f.active_damage_effects@.len() ==> !(
            #[trigger] f.active_damage_effects@[i]).complete
    }
    &&& o.game_state != GameState::Play ==> f == o
}

} // verus!
