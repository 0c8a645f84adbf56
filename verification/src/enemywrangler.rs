//! The enemies of a run: spawning them, moving them towards the player,
//! and what their debuffs do. Times are whole milliseconds on one clock
//! that the caller reads.
use vstd::prelude::*;
use crate::chain::{all_on_map, on_map, same_enemy};
use crate::character::{Character, damaged, enemies_on_map};
use crate::coords::{AreaWrapper, ChaosArea, Direction, Position, SquareArea, in_bounds, list_bounds, constrained_pos};
use crate::debuffs::{Debuff, DebuffTypes, GetDebuffTypes, on_death_effects};
use crate::effects::{DamageArea, DamageEffect, same_area, same_damage_area};
use crate::enemy::{Enemy, EnemyDrops, small_pos, step_towards, debuffed_style};
use crate::entities::{Color, EntityCharacters, Style, restyled, style_of};
use crate::map::{Layer, layer_height, layer_valid, layer_width};
use crate::stats::{GameStats, PlayerStats};
use crate::upgrades::{ceil_div, clamp_i32};
use crate::utils::{TICK_RATE, can_stand, get_rand_position_on_edge, is_next_to_character, next_to, standable, per_sec_to_tick_count_to_u64, ticks_between};

verus! {

/// The most enemies a run holds at once.
pub const ENEMY_CAP: usize = 2000;

/// The health enemies start a run with.
pub const DEFAULT_HEALTH: i32 = 2;

/// How often enemies spawn at the start of a run, in thousandths per
/// second, before the spawn multiplier.
pub const DEFAULT_SPAWN_P_S: u64 = 400;

/// How often enemies move, in thousandths per second.
pub const DEFAULT_MOVE_P_S: u64 = 1300;

/// A layer no wider or higher than `on_map` reaches, with a first row.
pub open spec fn layer_small(layer: &Layer) -> bool {
    &&& layer_valid(layer)
    &&& 0 < layer_width(layer) <= 0x4000_0000
    &&& layer_height(layer) <= 0x4000_0000
}

/// Spawns, moves and scales the enemies of a run.
pub struct EnemyWrangler {
    pub enemies: Vec<Enemy>,
    pub enemy_spawn_ticks: u64,
    /// How many enemies a spawn brings, in thousandths; rounded up when
    /// spawning.
    pub enemy_spawn_mult: u64,
    pub enemy_move_ticks: u64,
    pub enemy_health: i32,
    pub enemy_damage: i32,
    pub enemy_drops: EnemyDrops,
}

/// The positions of the enemies, in order.
pub open spec fn positions_of(es: Seq<Enemy>) -> Seq<Position> {
    es.map_values(|e: Enemy| e.position)
}

/// Whether `tick` is a multiple of `n` (only 0 is a multiple of 0).
pub open spec fn multiple_of(tick: int, n: int) -> bool {
    if n == 0 {
        tick == 0
    } else {
        tick % n == 0
    }
}

/// `tick.is_multiple_of(n)`.
pub fn is_multiple_of(tick: u64, n: u64) -> (res: bool)
    ensures
        res == multiple_of(tick as int, n as int),
{
    if n == 0 {
        tick == 0
    } else {
        tick % n == 0
    }
}

/// The enemy `e` once it has looked at the character: it remembers where
/// it stands as where it was, and takes the style its debuffs call for.
pub open spec fn looked(e: Enemy) -> Enemy {
    Enemy {
        prev_position: e.position,
        entitychar: restyled(e.entitychar, debuffed_style(style_of(e.entitychar), e.debuffs@)),
        ..e
    }
}

/// The effect shown where an enemy strikes the character at `p`: a
/// blinking bold dark gray blackout of its cell for 200 ms from `now`.
pub open spec fn strike_effect(f: DamageEffect, p: Position, now: int) -> bool {
    &&& f.damage_area.damage_amount == 0
    &&& f.damage_area.area == AreaWrapper::Square(SquareArea { corner1: p, corner2: p })
    &&& f.damage_area.entity == EntityCharacters::AttackBlackout(
        Style { fg: Some(Color::DarkGray), bold: true, italic: false },
    )
    &&& f.damage_area.duration == 200
    &&& f.damage_area.blink
    &&& f.damage_area.weapon_stats is None
    &&& f.start_time == now
    &&& !f.complete
    &&& f.active_area == AreaWrapper::Square(SquareArea { corner1: p, corner2: p })
    &&& f.active_entity == f.damage_area.entity
}

impl Enemy {
    /// The enemy's turn: it remembers where it stands as where it was and
    /// takes the style its debuffs call for; beside the character it strikes
    /// it for its damage, showing `strike_effect`; it then proposes a step
    /// towards the character along a drawn axis (see
    /// `move_to_point_granular`), or `None` where that step lands on the
    /// character.
    pub fn update(&mut self, character: &mut Character, damage_effects: &mut Vec<DamageEffect>, now: u64) -> (res:
        Option<(Position, Direction)>)
        requires
            small_pos(old(self).position),
            small_pos(old(character).position),
        ensures
            same_enemy(*final(self), looked(*old(self))),
            next_to(old(character).position, old(self).position) ==> {
                &&& *final(character) == damaged(*old(character), old(self).damage)
                &&& final(damage_effects)@.len() == old(damage_effects)@.len() + 1
                &&& final(damage_effects)@.take(old(damage_effects)@.len() as int) == old(damage_effects)@
                &&& strike_effect(final(damage_effects)@.last(), old(character).position, now as int)
            },
            !next_to(old(character).position, old(self).position) ==> {
                &&& *final(character) == *old(character)
                &&& final(damage_effects)@ == old(damage_effects)@
            },
            ({
                let a = step_towards(old(self).position, old(character).position, true);
                let b = step_towards(old(self).position, old(character).position, false);
                &&& match res {
                    Some(step) => (step == a || step == b) && step.0 != old(character).position,
                    None => a.0 == old(character).position || b.0 == old(character).position,
                }
                &&& old(character).position.1 == old(self).position.1 && old(character).position.0
                    != old(self).position.0 ==> (res == Some(a) || (res is None && a.0
                    == old(character).position))
            }),
    {
        self.prev_position = self.position;
        self.change_style_with_debuff();
        let cpos = character.get_pos();
        if is_next_to_character(&cpos, &self.position) {
            character.take_damage(self.damage);
            let effect = DamageEffect::new(
                AreaWrapper::Square(SquareArea::from_position(cpos)),
                EntityCharacters::AttackBlackout(Style::new().bold().fg(Color::DarkGray)),
                200,
                true,
                now,
            );
            damage_effects.push(effect);
        }
        let (desired_pos, desired_facing) = crate::enemy::move_to_point_granular(&self.position, &cpos, true);
        if desired_pos != cpos {
            Some((desired_pos, desired_facing))
        } else {
            None
        }
    }
}

impl EnemyWrangler {
    /// A wrangler with no enemy, for a run with the given game stats:
    /// enemies move 1.3 times a second and spawn 0.4 times the spawn
    /// multiplier times a second, one at a time, with 2 health, 1 damage
    /// and a drop of 1 gold.
    pub fn new(game_stats: &GameStats) -> (res: EnemyWrangler)
        ensures
            res.enemies@.len() == 0,
            res.enemy_move_ticks == ticks_between(DEFAULT_MOVE_P_S as int),
            res.enemy_spawn_ticks == ticks_between(
                DEFAULT_SPAWN_P_S * game_stats.enemy_spawn_mult / 1000,
            ),
            res.enemy_spawn_mult == 1000,
            res.enemy_damage == 1,
            res.enemy_health == DEFAULT_HEALTH,
            res.enemy_drops == (EnemyDrops { gold: 1, xp: 0 }),
    {
        let per_sec = (DEFAULT_SPAWN_P_S as u128) * (game_stats.enemy_spawn_mult as u128) / 1000;
        let spawn_per_sec: u64 = per_sec as u64;
        EnemyWrangler {
            enemies: Vec::new(),
            enemy_move_ticks: per_sec_to_tick_count_to_u64(DEFAULT_MOVE_P_S),
            enemy_spawn_ticks: per_sec_to_tick_count_to_u64(spawn_per_sec),
            enemy_spawn_mult: 1000,
            enemy_damage: 1,
            enemy_health: DEFAULT_HEALTH,
            enemy_drops: EnemyDrops { gold: 1, xp: 0 },
        }
    }

    /// The positions of the enemies, in order.
    pub fn get_enemy_positions(&self) -> (res: Vec<Position>)
        ensures
            res@ == positions_of(self.enemies@),
    {
        let mut res: Vec<Position> = Vec::new();
        let mut i: usize = 0;
        while i < self.enemies.len()
            invariant
                i <= self.enemies@.len(),
                res@ == positions_of(self.enemies@).take(i as int),
            decreases self.enemies@.len() - i,
        {
            res.push(self.enemies[i].position);
            proof {
                assert(positions_of(self.enemies@).take(i + 1) =~= positions_of(self.enemies@).take(
                    i as int,
                ).push(self.enemies@[i as int].position));
            }
            i = i + 1;
        }
        assert(positions_of(self.enemies@).take(i as int) =~= positions_of(self.enemies@));
        res
    }

    /// Spawns an enemy on an edge of the layer, unless the run holds
    /// `ENEMY_CAP` enemies already or the first edge position drawn lies in
    /// the box around the enemies' positions; the enemy stands on a second
    /// position drawn on an edge, with the wrangler's damage, health and
    /// drops.
    pub fn spawn_enemy(&mut self, layer: &Layer)
        requires
            layer_small(layer),
        ensures
            final(self).enemy_spawn_ticks == old(self).enemy_spawn_ticks,
            final(self).enemy_spawn_mult == old(self).enemy_spawn_mult,
            final(self).enemy_move_ticks == old(self).enemy_move_ticks,
            final(self).enemy_health == old(self).enemy_health,
            final(self).enemy_damage == old(self).enemy_damage,
            final(self).enemy_drops == old(self).enemy_drops,
            old(self).enemies@.len() >= ENEMY_CAP ==> final(self).enemies@ == old(self).enemies@,
            final(self).enemies@ == old(self).enemies@ || {
                &&& old(self).enemies@.len() < ENEMY_CAP
                &&& final(self).enemies@.len() == old(self).enemies@.len() + 1
                &&& final(self).enemies@.drop_last() == old(self).enemies@
                &&& spawned(final(self).enemies@.last(), *old(self), layer)
            },
            old(self).enemies@.len() < ENEMY_CAP && !spawn_blockable(old(self).enemies@, layer)
                ==> final(self).enemies@.len() == old(self).enemies@.len() + 1,
    {
        if self.enemies.len() >= ENEMY_CAP {
            return;
        }
        let position = get_rand_position_on_edge(layer);
        let enemy_area = AreaWrapper::Chaos(ChaosArea::new(self.get_enemy_positions()));
        if position.is_in_area(&enemy_area) {
            proof {
                assert(on_edge(position, layer));
            }
            return;
        }
        let at = get_rand_position_on_edge(layer);
        let enemy = Enemy::new(at, self.enemy_damage, self.enemy_health, self.enemy_drops);
        self.enemies.push(enemy);
        proof {
            assert(self.enemies@.drop_last() =~= old(self).enemies@);
        }
    }

    /// Spawns as many enemies as the spawn multiplier, rounded up, says
    /// (see `spawn_enemy`).
    fn spawn_round(&mut self, layer: &Layer)
        requires
            layer_small(layer),
            all_on_map(old(self).enemies@),
        ensures
            all_on_map(final(self).enemies@),
            final(self).enemy_spawn_ticks == old(self).enemy_spawn_ticks,
            final(self).enemy_spawn_mult == old(self).enemy_spawn_mult,
            final(self).enemy_move_ticks == old(self).enemy_move_ticks,
            final(self).enemy_health == old(self).enemy_health,
            final(self).enemy_damage == old(self).enemy_damage,
            final(self).enemy_drops == old(self).enemy_drops,
            final(self).enemies@.len() >= old(self).enemies@.len(),
            old(self).enemies@.len() <= ENEMY_CAP ==> final(self).enemies@.len() <= ENEMY_CAP,
            final(self).enemies@.take(old(self).enemies@.len() as int) == old(self).enemies@,
            forall|i: int|
                old(self).enemies@.len() <= i < final(self).enemies@.len() ==> spawned(
                    #[trigger] final(self).enemies@[i],
                    *old(self),
                    layer,
                ),
            final(self).enemies@.len() <= old(self).enemies@.len() + spawn_count(old(self).enemy_spawn_mult),
            spawn_count(old(self).enemy_spawn_mult) > 0 && old(self).enemies@.len() < ENEMY_CAP
                && !spawn_blockable(old(self).enemies@, layer) ==> final(self).enemies@.len()
                > old(self).enemies@.len(),
    {
        let count = self.enemy_spawn_mult / 1000 + if self.enemy_spawn_mult % 1000 == 0 {
            0
        } else {
            1
        };
        let ghost orig = self.enemies@;
        let ghost w0 = *self;
        let mut k: u64 = 0;
        while k < count
            invariant
                layer_small(layer),
                all_on_map(self.enemies@),
                self.enemy_spawn_ticks == w0.enemy_spawn_ticks,
                self.enemy_spawn_mult == w0.enemy_spawn_mult,
                self.enemy_move_ticks == w0.enemy_move_ticks,
                self.enemy_health == w0.enemy_health,
                self.enemy_damage == w0.enemy_damage,
                self.enemy_drops == w0.enemy_drops,
                self.enemies@.len() >= orig.len(),
                orig.len() <= ENEMY_CAP ==> self.enemies@.len() <= ENEMY_CAP,
                self.enemies@.take(orig.len() as int) == orig,
                forall|i: int| orig.len() <= i < self.enemies@.len() ==> spawned(#[trigger] self.enemies@[i], w0, layer),
                count == spawn_count(w0.enemy_spawn_mult),
                k <= count,
                self.enemies@.len() <= orig.len() + k,
                k == 0 ==> self.enemies@ == orig,
                k > 0 && orig.len() < ENEMY_CAP && !spawn_blockable(orig, layer) ==> self.enemies@.len() > orig.len(),
            decreases count - k,
        {
            let ghost before = self.enemies@;
            self.spawn_enemy(layer);
            proof {
                if self.enemies@ != before {
                    assert(self.enemies@.take(orig.len() as int) =~= before.take(orig.len() as int));
                    assert forall|i: int| 0 <= i < self.enemies@.len() implies on_map(#[trigger] self.enemies@[i].position) by {
                        if i < before.len() {
                            assert(self.enemies@[i] == before[i]);
                        }
                    }
                    assert forall|i: int| orig.len() <= i < self.enemies@.len() implies spawned(#[trigger] self.enemies@[i], w0, layer) by {
                        if i < before.len() {
                            assert(self.enemies@[i] == before[i]);
                        }
                    }
                }
            }
            k = k + 1;
        }
    }
}

/// `e` is an enemy the wrangler `w` spawns: fresh, on an edge of the
/// layer, with the wrangler's damage, health and drops.
pub open spec fn spawned(e: Enemy, w: EnemyWrangler, layer: &Layer) -> bool {
    &&& 0 <= e.position.0 < layer_width(layer)
    &&& 0 <= e.position.1 < layer_height(layer)
    &&& (e.position.0 == 0 || e.position.0 == layer_width(layer) - 1 || e.position.1 == 0
        || e.position.1 == layer_height(layer) - 1)
    &&& e.prev_position == e.position
    &&& e.facing == Direction::UP
    &&& e.damage == w.enemy_damage
    &&& e.health == w.enemy_health
    &&& e.max_health == w.enemy_health
    &&& e.is_alive
    &&& e.entitychar == EntityCharacters::Enemy(crate::entities::plain_style())
    &&& e.drops == w.enemy_drops
    &&& e.debuffs@.len() == 0
    &&& e.got_hit == (false, 0i32)
}


/// The enemy `l` stepping as `s` says.
pub open spec fn stepped(l: Enemy, s: (Position, Direction)) -> Enemy {
    Enemy { position: s.0, prev_position: l.position, facing: s.1, ..l }
}

/// Whether an enemy may step to `p`: on the map of the given size, off the
/// character at `cpos`, and outside the box `b` around the enemies.
pub open spec fn may_step(p: Position, cpos: Position, b: (i32, i32, i32, i32), width: i32, height: i32) -> bool {
    standable(width, height, Some(cpos), p) && !in_bounds(p, b)
}

/// The damage a shove deals: the shove damage times the damage multiplier
/// (thousandths), rounded up and held to `i32`.
pub open spec fn shove_damage_of(stats: PlayerStats) -> int {
    clamp_i32(ceil_div(stats.shove_damage * stats.damage_mult, 1000))
}

/// How far a shove pushes, held to `i32::MAX / 2` cells: no layer is wider
/// or higher than that, so the enemy is pushed to the edge either way.
pub open spec fn shove_steps(stats: PlayerStats) -> int {
    if stats.shove_amount > 0x3fff_ffff { 0x3fff_ffff } else { stats.shove_amount as int }
}

/// `f` is what the enemy `e` can be after its turn with the character at
/// `cpos`: it looks at the character (see `looked`) and proposes the step
/// along x or along y towards the character (along x where they share a
/// row). A proposal onto the character is dropped; otherwise the enemy takes
/// the step where it may (see `may_step`) and stays where it may not; where the player shoves and the enemy stood beside the
/// character, it takes the shove's damage (if any) and is shoved back (see
/// `shoved`).
pub open spec fn enemy_turn(
    e: Enemy,
    f: Enemy,
    cpos: Position,
    b: (i32, i32, i32, i32),
    stats: PlayerStats,
    width: i32,
    height: i32,
    layer: &Layer,
) -> bool {
    exists|m: Enemy, h: Enemy| #[trigger] turn_via(e, f, m, h, cpos, b, stats, width, height, layer)
}

/// The turn of `enemy_turn` through `m`, the enemy after its step, and
/// `h`, the enemy after the shove's damage.
pub open spec fn turn_via(
    e: Enemy,
    f: Enemy,
    m: Enemy,
    h: Enemy,
    cpos: Position,
    b: (i32, i32, i32, i32),
    stats: PlayerStats,
    width: i32,
    height: i32,
    layer: &Layer,
) -> bool {
    let l = looked(e);
    let a = step_towards(e.position, cpos, true);
    let c = step_towards(e.position, cpos, false);
    let level_row = cpos.1 == e.position.1 && cpos.0 != e.position.0;
    &&& {
        ||| (same_enemy(m, l) && (a.0 == cpos || c.0 == cpos))
        ||| (a.0 != cpos && same_enemy(
            m,
            if may_step(a.0, cpos, b, width, height) { stepped(l, a) } else { l },
        ))
        ||| (c.0 != cpos && !level_row && same_enemy(
            m,
            if may_step(c.0, cpos, b, width, height) { stepped(l, c) } else { l },
        ))
    }
    &&& if stats.shove_amount > 0 && next_to(cpos, e.position) {
        &&& if stats.shove_damage > 0 {
            crate::enemy::hit_by(m, h, shove_damage_of(stats) as i32)
        } else {
            same_enemy(h, m)
        }
        &&& same_enemy(f, crate::enemy::shoved(h, shove_steps(stats), layer))
    } else {
        same_enemy(f, m)
    }
}

/// The character `c` after each enemy of the list beside `cpos` strikes it,
/// in order.
pub open spec fn struck(c: Character, es: Seq<Enemy>, cpos: Position) -> Character
    decreases es.len(),
{
    if es.len() == 0 {
        c
    } else {
        let prev = struck(c, es.drop_last(), cpos);
        if next_to(cpos, es.last().position) {
            damaged(prev, es.last().damage)
        } else {
            prev
        }
    }
}

/// The number of enemies of the list beside `cpos`.
pub open spec fn strike_count(es: Seq<Enemy>, cpos: Position) -> nat
    decreases es.len(),
{
    if es.len() == 0 {
        0
    } else {
        strike_count(es.drop_last(), cpos) + if next_to(cpos, es.last().position) { 1nat } else { 0nat }
    }
}

impl EnemyWrangler {
    /// Gives every enemy its turn in order (see `enemy_turn`), against the
    /// box around where the enemies stood before any moved: the character
    /// takes a strike from each enemy beside it (see `struck`) and an effect
    /// shows each strike.
    pub fn update_enemies(
        &mut self,
        character: &mut Character,
        layer: &Layer,
        damage_effects: &mut Vec<DamageEffect>,
        stats: &PlayerStats,
        width: i32,
        height: i32,
        now: u64,
    )
        requires
            layer_small(layer),
            all_on_map(old(self).enemies@),
            on_map(old(character).position),
            width <= 0x4000_0000,
            height <= 0x4000_0000,
        ensures
            all_on_map(final(self).enemies@),
            final(self).enemies@.len() == old(self).enemies@.len(),
            *final(self) == (EnemyWrangler { enemies: final(self).enemies, ..*old(self) }),
            forall|i: int|
                0 <= i < old(self).enemies@.len() ==> enemy_turn(
                    #[trigger] old(self).enemies@[i],
                    final(self).enemies@[i],
                    old(character).position,
                    list_bounds(positions_of(old(self).enemies@)),
                    *stats,
                    width,
                    height,
                    layer,
                ),
            *final(character) == struck(*old(character), old(self).enemies@, old(character).position),
            final(damage_effects)@.len() == old(damage_effects)@.len() + strike_count(
                old(self).enemies@,
                old(character).position,
            ),
            final(damage_effects)@.take(old(damage_effects)@.len() as int) == old(damage_effects)@,
            forall|i: int|
                old(damage_effects)@.len() <= i < final(damage_effects)@.len() ==> strike_effect(
                    #[trigger] final(damage_effects)@[i],
                    old(character).position,
                    now as int,
                ),
    {
        let positions = self.get_enemy_positions();
        let enemy_area = AreaWrapper::Chaos(ChaosArea::new(positions));
        let ghost orig = self.enemies@;
        let ghost w0 = *self;
        let ghost c0 = *character;
        let ghost e0 = damage_effects@;
        let cpos = character.get_pos();
        let shove_steps_now: i32 = if stats.shove_amount > 0x3fff_ffff {
            0x3fff_ffff
        } else {
            stats.shove_amount as i32
        };
        assert(0 <= (stats.shove_damage as int) * (stats.damage_mult as int) <= 0x1_0000_0000 * 0x1_0000_0000_0000_0000)
            by (nonlinear_arith)
            requires 0 <= stats.shove_damage <= 0xffff_ffff, 0 <= stats.damage_mult <= 0xffff_ffff_ffff_ffff;
        let shove_damage = crate::weapons::ceil_div_i32(
            (stats.shove_damage as i128) * (stats.damage_mult as i128),
            1000,
        );
        let mut i: usize = 0;
        while i < self.enemies.len()
            invariant
                i <= self.enemies@.len(),
                self.enemies@.len() == orig.len(),
                *self == (EnemyWrangler { enemies: self.enemies, ..w0 }),
                layer_small(layer),
                all_on_map(orig),
                all_on_map(self.enemies@),
                width <= 0x4000_0000,
                height <= 0x4000_0000,
                on_map(cpos),
                cpos == c0.position,
                character.position == cpos,
                enemy_area.bounds() == list_bounds(positions_of(orig)),
                shove_steps_now == shove_steps(*stats),
                shove_damage == shove_damage_of(*stats),
                forall|j: int| i <= j < orig.len() ==> #[trigger] self.enemies@[j] == orig[j],
                forall|j: int|
                    0 <= j < i ==> enemy_turn(
                        #[trigger] orig[j],
                        self.enemies@[j],
                        cpos,
                        list_bounds(positions_of(orig)),
                        *stats,
                        width,
                        height,
                        layer,
                    ),
                *character == struck(c0, orig.take(i as int), cpos),
                damage_effects@.len() == e0.len() + strike_count(orig.take(i as int), cpos),
                damage_effects@.take(e0.len() as int) == e0,
                forall|k: int|
                    e0.len() <= k < damage_effects@.len() ==> strike_effect(
                        #[trigger] damage_effects@[k],
                        cpos,
                        now as int,
                    ),
            decreases orig.len() - i,
        {
            proof {
                assert(orig.take(i + 1).drop_last() =~= orig.take(i as int));
                assert(orig.take(i + 1).last() == orig[i as int]);
            }
            let mut e = self.enemies.remove(i);
            let ghost eo = e;
            assert(e == orig[i as int]);
            assert(on_map(orig[i as int].position));
            let ghost before_effects = damage_effects@;
            let step = e.update(character, damage_effects, now);
            proof {
                assert forall|k: int|
                    e0.len() <= k < damage_effects@.len() implies strike_effect(
                        #[trigger] damage_effects@[k],
                        cpos,
                        now as int,
                    ) by {
                    if k < before_effects.len() {
                        assert(damage_effects@.take(before_effects.len() as int)[k] == before_effects[k]);
                    }
                }
            }
            let ghost l = e;
            let ghost m = e;
            match step {
                Some((p, f)) => {
                    if can_stand(width, height, Some(&cpos), &p) && !p.is_in_area(&enemy_area) {
                        e.move_to(p, f);
                        proof {
                            m = e;
                        }
                    }
                },
                None => {},
            }
            let ghost h = e;
            if stats.shove_amount > 0 && is_next_to_character(&cpos, &e.prev_position) {
                if stats.shove_damage > 0 {
                    e.take_damage(shove_damage);
                }
                proof {
                    h = e;
                }
                e.move_back(shove_steps_now, layer);
            }
            proof {
                assert(turn_via(eo, e, m, h, cpos, list_bounds(positions_of(orig)), *stats, width, height, layer));
                assert(damage_effects@.take(e0.len() as int) =~= before_effects.take(e0.len() as int));
            }
            self.enemies.insert(i, e);
            i = i + 1;
        }
        proof {
            assert(orig.take(orig.len() as int) =~= orig);
        }
    }
}

/// Whether a debuff can act on tick `tick` with the numbers it needs: an
/// electrocution that is not complete has a size, and an ignition about to
/// blow up has a damage.
pub open spec fn tick_safe(d: Debuff, tick: int) -> bool {
    &&& !d.complete && d.debuff_type == DebuffTypes::ShockElectrocute ==> d.stats.size is Some
    &&& !d.complete && d.debuff_type == DebuffTypes::FlameIgnite && tick % 6 == 0 && d.stats.size is Some
        ==> d.stats.damage is Some
}

/// Whether the debuff can act on the tick (see `tick_safe`).
fn is_tick_safe(d: &Debuff, tick: u64) -> (res: bool)
    ensures
        res == tick_safe(*d, tick as int),
{
    let electrocute_ok = d.complete || d.debuff_type != DebuffTypes::ShockElectrocute || d.stats.size.is_some();
    let ignite_ok = d.complete || d.debuff_type != DebuffTypes::FlameIgnite || tick % 6 != 0
        || d.stats.size.is_none() || d.stats.damage.is_some();
    electrocute_ok && ignite_ok
}

/// The fields an enemy keeps while its debuffs act and damage lands on it.
pub open spec fn keeps_place(a: Enemy, b: Enemy) -> bool {
    &&& a.position == b.position
    &&& a.prev_position == b.prev_position
    &&& a.facing == b.facing
    &&& a.damage == b.damage
    &&& a.max_health == b.max_health
    &&& a.drops == b.drops
}

/// `s` lists, in increasing order, indices below `n`.
pub open spec fn increasing_below(s: Seq<int>, n: int) -> bool {
    &&& forall|k: int| 0 <= k < s.len() ==> 0 <= #[trigger] s[k] < n
    &&& forall|k: int, l: int| 0 <= k < l < s.len() ==> #[trigger] s[k] < #[trigger] s[l]
}

impl Enemy {
    /// A copy of the enemy.
    pub fn duplicate(&self) -> (res: Enemy)
        ensures
            same_enemy(res, *self),
    {
        let mut debuffs: Vec<Debuff> = Vec::new();
        let mut i: usize = 0;
        while i < self.debuffs.len()
            invariant
                i <= self.debuffs@.len(),
                debuffs@ == self.debuffs@.take(i as int),
            decreases self.debuffs@.len() - i,
        {
            debuffs.push(self.debuffs[i]);
            assert(self.debuffs@.take(i + 1) =~= self.debuffs@.take(i as int).push(self.debuffs@[i as int]));
            i = i + 1;
        }
        assert(self.debuffs@.take(i as int) =~= self.debuffs@);
        Enemy {
            position: self.position,
            prev_position: self.prev_position,
            facing: self.facing,
            damage: self.damage,
            health: self.health,
            max_health: self.max_health,
            is_alive: self.is_alive,
            entitychar: self.entitychar,
            drops: self.drops,
            debuffs,
            got_hit: self.got_hit,
        }
    }
}

/// The debuffs of `v` that are not complete, in order.
fn incomplete(v: &Vec<Debuff>) -> (res: Vec<Debuff>)
    ensures
        res@ == v@.filter(|d: Debuff| !d.complete),
{
    let mut res: Vec<Debuff> = Vec::new();
    let mut i: usize = 0;
    while i < v.len()
        invariant
            i <= v@.len(),
            res@ == v@.take(i as int).filter(|d: Debuff| !d.complete),
        decreases v@.len() - i,
    {
        proof {
            reveal_with_fuel(Seq::filter, 1);
            assert(v@.take(i + 1).drop_last() =~= v@.take(i as int));
        }
        if !v[i].complete {
            res.push(v[i]);
        }
        i = i + 1;
    }
    assert(v@.take(i as int) =~= v@);
    res
}

/// `after` and `drops` are what a pass of the enemies' debuffs leaves of
/// `before` (see `EnemyWrangler::process_enemy_effects`): the enemies kept
/// and those removed split `before` in order; the kept ones keep their
/// places and drops, the removed ones give `drops`; an enemy already dead is
/// removed and a living one without debuffs is kept.
pub open spec fn effects_pass(before: Seq<Enemy>, after: Seq<Enemy>, drops: Seq<EnemyDrops>) -> bool {
    exists|kept: Seq<int>, gone: Seq<int>|
        {
            &&& kept.len() == after.len()
            &&& gone.len() == drops.len()
            &&& increasing_below(kept, before.len() as int)
            &&& increasing_below(gone, before.len() as int)
            &&& forall|k: int, l: int| 0 <= k < kept.len() && 0 <= l < gone.len() ==> #[trigger] kept[k] != #[trigger] gone[l]
            &&& forall|k: int|
                0 <= k < kept.len() ==> keeps_place(
                    #[trigger] after[k],
                    before[kept[k]],
                )
            &&& forall|k: int| 0 <= k < gone.len() ==> #[trigger] drops[k] == before[gone[k]].drops
            &&& forall|k: int|
                0 <= k < before.len() && !(#[trigger] before[k]).is_alive
                    ==> gone.contains(k)
            &&& forall|k: int|
                0 <= k < before.len() && (#[trigger] before[k]).is_alive
                    && before[k].debuffs@.len() == 0 ==> kept.contains(k)
        }
}

/// A position on an edge of the layer.
pub open spec fn on_edge(p: Position, layer: &Layer) -> bool {
    &&& 0 <= p.0 < layer_width(layer)
    &&& 0 <= p.1 < layer_height(layer)
    &&& (p.0 == 0 || p.0 == layer_width(layer) - 1 || p.1 == 0 || p.1 == layer_height(layer) - 1)
}

/// Whether a position on an edge of the layer lies in the box around the
/// enemies' positions, which is where a drawn spawn is turned down.
pub open spec fn spawn_blockable(es: Seq<Enemy>, layer: &Layer) -> bool {
    exists|p: Position| #[trigger] on_edge(p, layer) && in_bounds(p, list_bounds(positions_of(es)))
}

/// `sp` is what the spawn step of a tick at `tick` leaves of the enemies of
/// `w`: on a spawn tick, the old enemies followed by at most
/// `spawn_count` freshly spawned ones (see `spawned`), at least one where
/// there is room and nothing can block it (see `spawn_blockable`), within
/// `ENEMY_CAP`; otherwise the old enemies.
pub open spec fn spawn_stage(w: EnemyWrangler, sp: Seq<Enemy>, layer: &Layer, tick: u64) -> bool {
    let old_es = w.enemies@;
    if multiple_of(tick as int, w.enemy_spawn_ticks as int) {
        &&& old_es.len() <= sp.len() <= old_es.len() + spawn_count(w.enemy_spawn_mult)
        &&& old_es.len() <= ENEMY_CAP ==> sp.len() <= ENEMY_CAP
        &&& sp.take(old_es.len() as int) == old_es
        &&& forall|i: int| old_es.len() <= i < sp.len() ==> spawned(#[trigger] sp[i], w, layer)
        &&& spawn_count(w.enemy_spawn_mult) > 0 && old_es.len() < ENEMY_CAP && !spawn_blockable(old_es, layer)
            ==> sp.len() > old_es.len()
    } else {
        sp == old_es
    }
}

/// `mid` and the character `fc` are what the move step of a tick at `tick`
/// leaves of the enemies `sp` and the character `c`: on a move tick every
/// enemy takes its turn (see `enemy_turn`) and the character takes the
/// strikes (see `struck`); otherwise nothing changes.
pub open spec fn move_stage(
    sp: Seq<Enemy>,
    mid: Seq<Enemy>,
    tick: u64,
    move_ticks: u64,
    c: Character,
    fc: Character,
    stats: PlayerStats,
    width: i32,
    height: i32,
    layer: &Layer,
) -> bool {
    if multiple_of(tick as int, move_ticks as int) {
        &&& mid.len() == sp.len()
        &&& forall|i: int|
            0 <= i < sp.len() ==> enemy_turn(
                #[trigger] sp[i],
                mid[i],
                c.position,
                list_bounds(positions_of(sp)),
                stats,
                width,
                height,
                layer,
            )
        &&& fc == struck(c, sp, c.position)
    } else {
        &&& mid == sp
        &&& fc == c
    }
}

/// `f`, `fc` and `drops` are the wrangler `o`, the character `oc` and the
/// drops after a tick at `tickcount` (see `EnemyWrangler::on_tick`).
pub open spec fn wrangler_ticked(o: EnemyWrangler, f: EnemyWrangler, oc: Character, fc: Character, drops: Seq<EnemyDrops>, tickcount: u64, layer: &Layer, stats: PlayerStats, width: i32, height: i32) -> bool {
    &&& all_on_map(f.enemies@)
    &&& o.enemies@.len() <= ENEMY_CAP ==> f.enemies@.len() <= ENEMY_CAP
    &&& f == (EnemyWrangler { enemies: f.enemies, ..o })
    &&& fc.position == oc.position
    &&& fc.weapons == oc.weapons
    &&& fc.charms == oc.charms
    &&& !multiple_of(tickcount as int, o.enemy_move_ticks as int) ==> fc
        == oc
    &&& !multiple_of(tickcount as int, o.enemy_spawn_ticks as int) && !multiple_of(
        tickcount as int,
        o.enemy_move_ticks as int,
    ) ==> f.enemies@.len() + drops.len() == o.enemies@.len()
    &&& exists|sp: Seq<Enemy>, mid: Seq<Enemy>|
        #![trigger spawn_stage(o, sp, layer, tickcount), move_stage(sp, mid, tickcount, o.enemy_move_ticks, oc, fc, stats, width, height, layer)]
        {
            &&& spawn_stage(o, sp, layer, tickcount)
            &&& move_stage(
                sp,
                mid,
                tickcount,
                o.enemy_move_ticks,
                oc,
                fc,
                stats,
                width,
                height,
                layer,
            )
            &&& effects_pass(mid, f.enemies@, drops)
        }
}

/// How many enemies a spawn round tries: the multiplier (thousandths)
/// rounded up.
pub open spec fn spawn_count(mult: u64) -> int {
    mult as int / 1000 + if mult % 1000 == 0 { 0int } else { 1 }
}

impl EnemyWrangler {
    /// Lets every enemy's debuffs act. For each enemy in turn, each of its
    /// debuffs acts on the tick (`Debuff::on_tick`; a debuff lacking the
    /// numbers it needs, see `tick_safe`, skips this) and on the enemy's hit
    /// (`Debuff::on_damage`, against the enemies as they stood before this
    /// call); the enemy keeps its debuffs that are not complete. An enemy
    /// that is now dead lets its debuffs act on its death
    /// (`Debuff::on_death`), leaves its drops, and is removed. Every damage
    /// area the debuffs gave then lands on the remaining enemies in turn
    /// and is shown as an effect from `now`.
    ///
    /// The drops come from the removed enemies in order, and the remaining
    /// enemies keep their order, places and drops; an enemy already dead is
    /// removed, and a living enemy without debuffs stays.
    pub fn process_enemy_effects(
        &mut self,
        layer: &Layer,
        damage_effects: &mut Vec<DamageEffect>,
        tickcount: u64,
        now: u64,
    ) -> (res: Vec<EnemyDrops>)
        requires
            layer_valid(layer),
        ensures
            *final(self) == (EnemyWrangler { enemies: final(self).enemies, ..*old(self) }),
            final(self).enemies@.len() + res@.len() == old(self).enemies@.len(),
            effects_pass(old(self).enemies@, final(self).enemies@, res@),
            all_on_map(old(self).enemies@) ==> all_on_map(final(self).enemies@),
            final(damage_effects)@.len() >= old(damage_effects)@.len(),
            final(damage_effects)@.take(old(damage_effects)@.len() as int) == old(damage_effects)@,
    {
        let n = self.enemies.len();
        let ghost orig = self.enemies@;
        let ghost w0 = *self;
        let mut snapshot: Vec<Enemy> = Vec::new();
        let mut i: usize = 0;
        while i < n
            invariant
                i <= n,
                n == orig.len(),
                self.enemies@ == orig,
                snapshot@.len() == i,
                forall|j: int| 0 <= j < i ==> same_enemy(#[trigger] snapshot@[j], orig[j]),
            decreases n - i,
        {
            let e = self.enemies[i].duplicate();
            snapshot.push(e);
            i = i + 1;
        }
        let snapshot_ok = enemies_on_map(&snapshot);
        let mut areas: Vec<DamageArea> = Vec::new();
        let mut drops: Vec<EnemyDrops> = Vec::new();
        let mut kept_enemies: Vec<Enemy> = Vec::new();
        let ghost mut kept: Seq<int> = Seq::empty();
        let ghost mut gone: Seq<int> = Seq::empty();
        let mut i: usize = 0;
        while i < n
            invariant
                i <= n,
                n == orig.len(),
                self.enemies@ == orig,
                *self == w0,
                layer_valid(layer),
                snapshot_ok == all_on_map(snapshot@),
                kept.len() == kept_enemies@.len(),
                gone.len() == drops@.len(),
                kept.len() + gone.len() == i,
                increasing_below(kept, i as int),
                increasing_below(gone, i as int),
                forall|k: int, l: int| 0 <= k < kept.len() && 0 <= l < gone.len() ==> #[trigger] kept[k] != #[trigger] gone[l],
                forall|k: int| 0 <= k < kept.len() ==> keeps_place(#[trigger] kept_enemies@[k], orig[kept[k]]),
                forall|k: int| 0 <= k < gone.len() ==> #[trigger] drops@[k] == orig[gone[k]].drops,
                forall|k: int| 0 <= k < i && !(#[trigger] orig[k]).is_alive ==> gone.contains(k),
                forall|k: int|
                    0 <= k < i && (#[trigger] orig[k]).is_alive && orig[k].debuffs@.len() == 0 ==> kept.contains(k),
            decreases n - i,
        {
            let mut enemy = self.enemies[i].duplicate();
            let ghost e0 = enemy;
            let mut debuffs: Vec<Debuff> = Vec::new();
            let mut j: usize = 0;
            while j < enemy.debuffs.len()
                invariant
                    j <= enemy.debuffs@.len(),
                    debuffs@ == enemy.debuffs@.take(j as int),
                decreases enemy.debuffs@.len() - j,
            {
                debuffs.push(enemy.debuffs[j]);
                assert(enemy.debuffs@.take(j + 1) =~= enemy.debuffs@.take(j as int).push(enemy.debuffs@[j as int]));
                j = j + 1;
            }
            assert(debuffs@ =~= enemy.debuffs@);
            assert(e0.is_alive == orig[i as int].is_alive);
            assert(e0.debuffs@.len() == orig[i as int].debuffs@.len());
            let mut j: usize = 0;
            while j < debuffs.len()
                invariant
                    j <= debuffs@.len(),
                    layer_valid(layer),
                    snapshot_ok == all_on_map(snapshot@),
                    keeps_place(enemy, e0),
                    !e0.is_alive ==> !enemy.is_alive,
                    debuffs@.len() == e0.debuffs@.len(),
                    debuffs@.len() == 0 ==> enemy == e0,
                decreases debuffs@.len() - j,
            {
                let mut d = debuffs[j];
                if is_tick_safe(&d, tickcount) {
                    match d.on_tick(&mut enemy, layer, tickcount) {
                        Some(a) => {
                            areas.push(a);
                        },
                        None => {},
                    }
                }
                let p = enemy.position;
                if snapshot_ok && 0 <= p.0 && p.0 <= 0x3fff_ffff && 0 <= p.1 && p.1 <= 0x3fff_ffff {
                    match d.on_damage(&mut enemy, layer, &snapshot) {
                        Some(a) => {
                            areas.push(a);
                        },
                        None => {},
                    }
                }
                debuffs.set(j, d);
                j = j + 1;
            }
            enemy.debuffs = incomplete(&debuffs);
            if !enemy.is_alive() {
                let on_death = enemy.debuffs.get_on_death_effects();
                if on_death.len() > 0 {
                    let mut j: usize = 0;
                    while j < enemy.debuffs.len()
                        invariant
                            j <= enemy.debuffs@.len(),
                            layer_valid(layer),
                        decreases enemy.debuffs@.len() - j,
                    {
                        match enemy.debuffs[j].on_death(&enemy, layer) {
                            Some(a) => {
                                areas.push(a);
                            },
                            None => {},
                        }
                        j = j + 1;
                    }
                }
                drops.push(enemy.get_drops());
                proof {
                    let g0 = gone;
                    gone = gone.push(i as int);
                    assert forall|k: int| 0 <= k < i + 1 && !(#[trigger] orig[k]).is_alive implies gone.contains(k) by {
                        if k < i {
                            let w = choose|w: int| 0 <= w < g0.len() && g0[w] == k;
                            assert(gone[w] == k);
                        } else {
                            assert(gone[gone.len() - 1] == k);
                        }
                    }
                    assert forall|k: int|
                        0 <= k < i + 1 && (#[trigger] orig[k]).is_alive && orig[k].debuffs@.len() == 0 implies kept.contains(k) by {
                    }
                }
            } else {
                kept_enemies.push(enemy);
                proof {
                    let k0 = kept;
                    kept = kept.push(i as int);
                    assert forall|k: int|
                        0 <= k < i + 1 && (#[trigger] orig[k]).is_alive && orig[k].debuffs@.len() == 0 implies kept.contains(k) by {
                        if k < i {
                            let w = choose|w: int| 0 <= w < k0.len() && k0[w] == k;
                            assert(kept[w] == k);
                        } else {
                            assert(kept[kept.len() - 1] == k);
                        }
                    }
                    assert forall|k: int| 0 <= k < i + 1 && !(#[trigger] orig[k]).is_alive implies gone.contains(k) by {
                    }
                }
            }
            i = i + 1;
        }
        self.enemies = kept_enemies;
        let ghost e_start = damage_effects@;
        let ghost after_retain = self.enemies@;
        let mut k: usize = 0;
        while k < areas.len()
            invariant
                k <= areas@.len(),
                self.enemies@.len() == after_retain.len(),
                forall|q: int| 0 <= q < after_retain.len() ==> keeps_place(#[trigger] self.enemies@[q], after_retain[q]),
                damage_effects@.len() >= e_start.len(),
                damage_effects@.take(e_start.len() as int) == e_start,
                *self == (EnemyWrangler { enemies: self.enemies, ..w0 }),
            decreases areas@.len() - k,
        {
            let ghost before = self.enemies@;
            areas[k].deal_damage(&mut self.enemies);
            proof {
                assert forall|q: int| 0 <= q < after_retain.len() implies keeps_place(#[trigger] self.enemies@[q], after_retain[q]) by {
                    assert(keeps_place(self.enemies@[q], before[q]));
                }
            }
            let effect = DamageEffect::from_damage_area(areas[k].duplicate(), now);
            let ghost eb = damage_effects@;
            damage_effects.push(effect);
            proof {
                assert(damage_effects@.take(e_start.len() as int) =~= eb.take(e_start.len() as int));
            }
            k = k + 1;
        }
        proof {
            assert(exists|kk: Seq<int>, gg: Seq<int>|
                {
                    &&& kk.len() == self.enemies@.len()
                    &&& gg.len() == drops@.len()
                    &&& increasing_below(kk, orig.len() as int)
                    &&& increasing_below(gg, orig.len() as int)
                    &&& forall|a: int, b: int| 0 <= a < kk.len() && 0 <= b < gg.len() ==> #[trigger] kk[a] != #[trigger] gg[b]
                    &&& forall|a: int| 0 <= a < kk.len() ==> keeps_place(#[trigger] self.enemies@[a], orig[kk[a]])
                    &&& forall|a: int| 0 <= a < gg.len() ==> #[trigger] drops@[a] == orig[gg[a]].drops
                    &&& forall|a: int| 0 <= a < orig.len() && !(#[trigger] orig[a]).is_alive ==> gg.contains(a)
                    &&& forall|a: int|
                        0 <= a < orig.len() && (#[trigger] orig[a]).is_alive && orig[a].debuffs@.len() == 0
                            ==> kk.contains(a)
                }) by {
                assert forall|a: int| 0 <= a < kept.len() implies keeps_place(#[trigger] self.enemies@[a], orig[kept[a]]) by {
                    assert(keeps_place(self.enemies@[a], after_retain[a]));
                    assert(keeps_place(after_retain[a], orig[kept[a]]));
                }
            }
            if all_on_map(orig) {
                assert forall|a: int| 0 <= a < self.enemies@.len() implies on_map(#[trigger] self.enemies@[a].position) by {
                    assert(keeps_place(self.enemies@[a], after_retain[a]));
                    assert(keeps_place(after_retain[a], orig[kept[a]]));
                    assert(on_map(orig[kept[a]].position));
                }
            }
        }
        drops
    }
}

impl EnemyWrangler {
    /// One tick of the run: on every `enemy_spawn_ticks`-th tick enemies
    /// spawn (see `spawn_enemy`; as many as the spawn multiplier rounded
    /// up), on every `enemy_move_ticks`-th tick every enemy takes its turn
    /// (see `update_enemies`), and on every tick the enemies' debuffs act
    /// (see `process_enemy_effects`), whose drops are returned.
    pub fn on_tick(
        &mut self,
        tickcount: u64,
        character: &mut Character,
        layer: &Layer,
        damage_effects: &mut Vec<DamageEffect>,
        stats: &PlayerStats,
        width: i32,
        height: i32,
        now: u64,
    ) -> (res: Vec<EnemyDrops>)
        requires
            layer_small(layer),
            all_on_map(old(self).enemies@),
            on_map(old(character).position),
            width <= 0x4000_0000,
            height <= 0x4000_0000,
        ensures
            wrangler_ticked(*old(self), *final(self), *old(character), *final(character), res@, tickcount, layer, *stats, width, height),
            final(damage_effects)@.len() >= old(damage_effects)@.len(),
            final(damage_effects)@.take(old(damage_effects)@.len() as int) == old(damage_effects)@,
    {
        let ghost w0 = *self;
        let ghost c0 = *character;
        let ghost e0 = damage_effects@;
        if is_multiple_of(tickcount, self.enemy_spawn_ticks) {
            self.spawn_round(layer);
        }
        let ghost sp = self.enemies@;
        proof {
            if multiple_of(tickcount as int, w0.enemy_spawn_ticks as int) {
                assert(sp.take(w0.enemies@.len() as int) == w0.enemies@);
            }
        }
        if is_multiple_of(tickcount, self.enemy_move_ticks) {
            let ghost es = self.enemies@;
            self.update_enemies(character, layer, damage_effects, stats, width, height, now);
            proof {
                lemma_struck_keeps_position(c0, es, c0.position);
            }
        }
        let ghost e1 = damage_effects@;
        let ghost mid = self.enemies@;
        let ghost c1 = *character;
        let drops = self.process_enemy_effects(layer, damage_effects, tickcount, now);
        assert(effects_pass(mid, self.enemies@, drops@));
        assert(spawn_stage(w0, sp, layer, tickcount));
        assert(move_stage(sp, mid, tickcount, w0.enemy_move_ticks, c0, c1, *stats, width, height, layer));
        proof {
            assert(damage_effects@.take(e0.len() as int) =~= damage_effects@.take(e1.len() as int).take(
                e0.len() as int,
            ));
        }
        drops
    }

    /// Gives every enemy the style its debuffs call for.
    pub fn on_frame(&mut self)
        ensures
            final(self).enemies@.len() == old(self).enemies@.len(),
            *final(self) == (EnemyWrangler { enemies: final(self).enemies, ..*old(self) }),
            forall|i: int|
                0 <= i < old(self).enemies@.len() ==> same_enemy(
                    #[trigger] final(self).enemies@[i],
                    Enemy {
                        entitychar: restyled(
                            old(self).enemies@[i].entitychar,
                            debuffed_style(
                                style_of(old(self).enemies@[i].entitychar),
                                old(self).enemies@[i].debuffs@,
                            ),
                        ),
                        ..old(self).enemies@[i]
                    },
                ),
    {
        let ghost orig = self.enemies@;
        let ghost w0 = *self;
        let mut i: usize = 0;
        while i < self.enemies.len()
            invariant
                i <= self.enemies@.len(),
                self.enemies@.len() == orig.len(),
                *self == (EnemyWrangler { enemies: self.enemies, ..w0 }),
                forall|j: int| i <= j < orig.len() ==> #[trigger] self.enemies@[j] == orig[j],
                forall|j: int|
                    0 <= j < i ==> same_enemy(
                        #[trigger] self.enemies@[j],
                        Enemy {
                            entitychar: restyled(
                                orig[j].entitychar,
                                debuffed_style(style_of(orig[j].entitychar), orig[j].debuffs@),
                            ),
                            ..orig[j]
                        },
                    ),
            decreases orig.len() - i,
        {
            let mut e = self.enemies.remove(i);
            assert(e == orig[i as int]);
            e.change_style_with_debuff();
            self.enemies.insert(i, e);
            i = i + 1;
        }
    }

    /// Sets what the wrangler spawns and how often, as the run's difficulty
    /// calls for.
    pub fn set_scaling(
        &mut self,
        enemy_health: i32,
        enemy_damage: i32,
        enemy_spawn_ticks: u64,
        enemy_spawn_mult: u64,
        enemy_move_ticks: u64,
        enemy_drops: EnemyDrops,
    )
        ensures
            *final(self) == (EnemyWrangler {
                enemy_health,
                enemy_damage,
                enemy_spawn_ticks,
                enemy_spawn_mult,
                enemy_move_ticks,
                enemy_drops,
                ..*old(self)
            }),
    {
        self.enemy_health = enemy_health;
        self.enemy_damage = enemy_damage;
        self.enemy_spawn_ticks = enemy_spawn_ticks;
        self.enemy_spawn_mult = enemy_spawn_mult;
        self.enemy_move_ticks = enemy_move_ticks;
        self.enemy_drops = enemy_drops;
    }
}

/// Strikes leave the character where it stands.
pub proof fn lemma_struck_keeps_position(c: Character, es: Seq<Enemy>, cpos: Position)
    ensures
        struck(c, es, cpos).position == c.position,
        struck(c, es, cpos).weapons == c.weapons,
        struck(c, es, cpos).charms == c.charms,
    decreases es.len(),
{
    if es.len() > 0 {
        lemma_struck_keeps_position(c, es.drop_last(), cpos);
    }
}
} // verus!
