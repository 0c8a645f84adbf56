//! The player's character: where it stands, its health, and the weapons and
//! charms it carries. Times are whole milliseconds on one clock that the
//! caller reads.
use vstd::prelude::*;
use crate::chain::{all_on_map, on_map};
use crate::charms::CharmWrapper;
use crate::coords::{Direction, Position};
use crate::effects::{DamageArea, DamageEffect, effect_updated, same_damage_area};
use crate::enemy::{Damageable, Enemy, health_look, saturating_sub_i32};
use crate::entities::{Color, EntityCharacters, Style, plain_style};
use crate::map::{Layer, layer_valid};
use crate::stats::PlayerStats;
use crate::upgrades::{PlayerState, clamp_i32};
use crate::weapons::{
    CharacterPositionData,
    Weapon,
    WeaponKind,
    WeaponWrapper,
    attack_outcome,
    base_damage_of,
    base_size_of,
    inner_of,
    kind_of,
    attack_fits,
    wrap,
    new_weapon,
};

verus! {

/// Represents the player character in the game.
pub struct Character {
    pub position: Position,
    pub prev_position: Position,
    /// When the character last moved.
    pub last_moved: u64,
    pub facing: Direction,
    pub stats: PlayerStats,
    pub health: i32,
    pub max_health: i32,
    pub is_alive: bool,
    pub weapons: Vec<WeaponWrapper>,
    pub charms: Vec<CharmWrapper>,
    pub entitychar: EntityCharacters,
}

/// How long the character waits between two moves at movement speed
/// multiplier `mult` (thousandths): 100 ms divided by the multiplier (taken
/// as at least 0.01), rounded to the nearest millisecond.
pub open spec fn move_timeout(mult: int) -> int {
    let m = if mult > 10 { mult } else { 10 };
    (100_000 + m / 2) / m
}

/// Whether a weapon slot can fire from `p`: it holds a weapon whose area
/// around `p` fits in `i32` (see `attack_fits`), whose cooldown can still
/// count, and a LIGHTNING only where every enemy stands on the map.
pub open spec fn attack_ready(w: WeaponWrapper, enemies: Seq<Enemy>, p: Position) -> bool {
    &&& inner_of(w) is Some
    &&& attack_fits(inner_of(w).unwrap(), p)
    &&& inner_of(w).unwrap().cooldown_ticks < u64::MAX
    &&& kind_of(w) == WeaponKind::Lightning ==> all_on_map(enemies)
}

/// Whether every enemy of the list stands on the map.
pub fn enemies_on_map(enemies: &Vec<Enemy>) -> (res: bool)
    ensures
        res == all_on_map(enemies@),
{
    let mut i: usize = 0;
    while i < enemies.len()
        invariant
            i <= enemies@.len(),
            forall|j: int| 0 <= j < i ==> on_map(#[trigger] enemies@[j].position),
        decreases enemies@.len() - i,
    {
        let p = enemies[i].position;
        if !(0 <= p.0 && p.0 <= 0x3fff_ffff && 0 <= p.1 && p.1 <= 0x3fff_ffff) {
            return false;
        }
        i = i + 1;
    }
    true
}

/// Whether the slot can fire (see `attack_ready`).
fn slot_ready(w: &WeaponWrapper, lightning_ok: bool, p: Position) -> (res: bool)
    ensures
        res == (inner_of(*w) is Some && attack_fits(inner_of(*w).unwrap(), p)
            && inner_of(*w).unwrap().cooldown_ticks < u64::MAX
            && (kind_of(*w) == WeaponKind::Lightning ==> lightning_ok)),
{
    let inner = match w {
        WeaponWrapper::Flash(x) => x,
        WeaponWrapper::Pillar(x) => x,
        WeaponWrapper::Lightning(x) => x,
        WeaponWrapper::Row(x) => x,
    };
    match inner {
        None => false,
        Some(x) => {
            let s: i64 = x.stats.size as i64;
            let px: i64 = p.0 as i64;
            let py: i64 = p.1 as i64;
            let lo: i64 = i32::MIN as i64;
            let hi: i64 = i32::MAX as i64;
            lo <= px - s && px - s <= hi && lo <= px + s && px + s <= hi && lo <= py - s && py - s <= hi
                && lo <= py + s && py + s <= hi && x.cooldown_ticks < u64::MAX && (w.kind() != WeaponKind::Lightning || lightning_ok)
        },
    }
}

/// The character `c` after taking `damage`, as `Character::take_damage`
/// leaves it.
pub open spec fn damaged(c: Character, damage: i32) -> Character {
    let h = clamp_i32(c.health - damage) as i32;
    Character {
        health: h,
        entitychar: health_look(h as int, c.max_health as int, true),
        is_alive: c.is_alive && h > 0,
        ..c
    }
}

impl Character {
    /// A character at the origin facing up, alive with the player's health
    /// and stats, carrying a FLASH and a PILLAR built on the player's weapon
    /// stats and no charm.
    pub fn new(player_state: &PlayerState, now: u64) -> (res: Character)
        requires
            player_state.stats.weapon_stats.damage_flat_boost <= i32::MAX - 3,
            player_state.stats.weapon_stats.size <= i32::MAX - 1,
        ensures
            res.position == Position(0, 0),
            res.prev_position == Position(0, 0),
            res.last_moved == now,
            res.facing == Direction::UP,
            res.stats == player_state.stats.player_stats,
            res.health == player_state.stats.player_stats.health,
            res.max_health == player_state.stats.player_stats.health,
            res.is_alive,
            res.entitychar == EntityCharacters::Character(plain_style()),
            res.charms@.len() == 0,
            res.weapons@.len() == 2,
            kind_of(res.weapons@[0]) == WeaponKind::Flash,
            kind_of(res.weapons@[1]) == WeaponKind::Pillar,
            inner_of(res.weapons@[0]) == Some(
                new_weapon(WeaponKind::Flash, player_state.stats.weapon_stats),
            ),
            inner_of(res.weapons@[1]) == Some(
                new_weapon(WeaponKind::Pillar, player_state.stats.weapon_stats),
            ),
    {
        let stats = player_state.stats.player_stats;
        let weapon_stats = player_state.stats.weapon_stats;
        let mut flash = WeaponWrapper::Flash(None);
        flash.populate_inner(weapon_stats);
        let mut pillar = WeaponWrapper::Pillar(None);
        pillar.populate_inner(weapon_stats);
        Character {
            position: Position(0, 0),
            prev_position: Position(0, 0),
            last_moved: now,
            facing: Direction::UP,
            stats,
            health: stats.health,
            max_health: stats.health,
            is_alive: true,
            weapons: vec![flash, pillar],
            charms: Vec::new(),
            entitychar: EntityCharacters::Character(Style::new()),
        }
    }

    /// The character's position.
    pub fn get_pos(&self) -> (res: Position)
        ensures
            res == self.position,
    {
        self.position
    }

    /// The character's position before its last move.
    pub fn get_prev_pos(&self) -> (res: Position)
        ensures
            res == self.prev_position,
    {
        self.prev_position
    }

    /// The direction the character faces.
    pub fn get_facing(&self) -> (res: Direction)
        ensures
            res == self.facing,
    {
        self.facing
    }

    /// The entity the character shows.
    pub fn get_entity_char(&self) -> (res: EntityCharacters)
        ensures
            res == self.entitychar,
    {
        self.entitychar
    }

    /// The character's health.
    pub fn get_health(&self) -> (res: i32)
        ensures
            res == self.health,
    {
        self.health
    }

    /// Whether the character is alive.
    pub fn is_alive(&self) -> (res: bool)
        ensures
            res == self.is_alive,
    {
        self.is_alive
    }

    /// Marks the character dead.
    pub fn die(&mut self)
        ensures
            *final(self) == (Character { is_alive: false, ..*old(self) }),
    {
        self.is_alive = false;
    }

    /// Puts the character at `new_pos`, keeping where it was.
    pub fn set_pos(&mut self, new_pos: Position)
        ensures
            *final(self) == (Character { position: new_pos, prev_position: old(self).position, ..*old(self) }),
    {
        self.prev_position = self.position;
        self.position = new_pos;
    }

    /// Turns the character to `facing` and, where more than its move
    /// timeout (see `move_timeout`) has passed since it last moved, moves it
    /// to `new_pos` and notes the time.
    pub fn move_to(&mut self, new_pos: Position, facing: Direction, now: u64)
        ensures
            ({
                let waited = if now >= old(self).last_moved { now - old(self).last_moved } else { 0 };
                if waited > move_timeout(old(self).stats.movement_speed_mult as int) {
                    *final(self) == (Character {
                        facing,
                        position: new_pos,
                        prev_position: old(self).position,
                        last_moved: now,
                        ..*old(self)
                    })
                } else {
                    *final(self) == (Character { facing, ..*old(self) })
                }
            }),
    {
        self.facing = facing;
        let difference = if now >= self.last_moved { now - self.last_moved } else { 0 };
        let mult = self.stats.movement_speed_mult;
        let m: u64 = if mult > 10 { mult } else { 10 };
        let timeout: u64 = (100_000 + m / 2) / m;
        if difference > timeout {
            self.set_pos(new_pos);
            self.last_moved = now;
        }
    }

    /// Lowers the character's health by `damage` (raises it for a negative
    /// value; held to the bounds of `i32`), shows it hurt below half its
    /// maximum health, and kills it at 0 or below.
    pub fn take_damage(&mut self, damage: i32)
        ensures
            *final(self) == damaged(*old(self), damage),
    {
        self.health = saturating_sub_i32(self.health, damage);
        if self.health >= self.max_health / 2 {
            self.entitychar = EntityCharacters::Character(Style::new());
        }
        if self.health < self.max_health / 2 {
            self.entitychar = EntityCharacters::Character(Style::new().fg(Color::Gray).italic());
        }
        if self.health <= 0 {
            self.die();
        }
    }

    /// Fires every weapon from the character's position: each slot that can
    /// fire (see `attack_ready`) attacks as `Weapon::attack` says with the
    /// damage multiplier `damage_mult` (thousandths); a slot that cannot
    /// gives an empty area. Each area also comes as an effect that starts
    /// 150 ms after the one before, the first at `now`, advanced to `now`.
    pub fn attack(&mut self, layer: &Layer, enemies: &Vec<Enemy>, damage_mult: u64, now: u64) -> (res: (
        Vec<DamageArea>,
        Vec<DamageEffect>,
    ))
        requires
            layer_valid(layer),
            on_map(old(self).position),
            now + 150 * old(self).weapons@.len() <= u64::MAX,
        ensures
            attacked(*old(self), *final(self), layer, enemies@, damage_mult, now, res.0@, res.1@),
    {
        let lightning_ok = enemies_on_map(enemies);
        let wielder = CharacterPositionData { position: self.position, facing: self.facing };
        let ghost old_self = *self;
        let mut areas: Vec<DamageArea> = Vec::new();
        let mut effects: Vec<DamageEffect> = Vec::new();
        let mut i: usize = 0;
        while i < self.weapons.len()
            invariant
                i <= self.weapons@.len(),
                self.weapons@.len() == old_self.weapons@.len(),
                *self == (Character { weapons: self.weapons, ..old_self }),
                layer_valid(layer),
                lightning_ok == all_on_map(enemies@),
                on_map(old_self.position),
                wielder == (CharacterPositionData { position: old_self.position, facing: old_self.facing }),
                now + 150 * old_self.weapons@.len() <= u64::MAX,
                areas@.len() == i,
                effects@.len() == i,
                forall|j: int| i <= j < self.weapons@.len() ==> self.weapons@[j] == old_self.weapons@[j],
                forall|j: int|
                    0 <= j < i ==> {
                        let w = #[trigger] old_self.weapons@[j];
                        let v = self.weapons@[j];
                        &&& kind_of(v) == kind_of(w)
                        &&& if attack_ready(w, enemies@, old_self.position) {
                            &&& inner_of(v) is Some
                            &&& attack_outcome(
                                kind_of(w),
                                inner_of(w).unwrap(),
                                inner_of(v).unwrap(),
                                areas@[j],
                                wielder,
                                enemies@,
                                layer,
                                damage_mult as int,
                            )
                        } else {
                            &&& v == w
                            &&& areas@[j].damage_amount == 0
                            &&& areas@[j].area matches crate::coords::AreaWrapper::Chaos(c)
                                && c.position_list@.len() == 0
                            &&& areas@[j].duration == 0
                            &&& areas@[j].entity == EntityCharacters::Empty(plain_style())
                            &&& !areas@[j].blink
                            &&& areas@[j].weapon_stats is None
                        }
                        &&& same_damage_area(effects@[j].damage_area, areas@[j])
                        &&& effects@[j].start_time == now + 150 * j
                        &&& effect_updated(
                            DamageEffect {
                                start_time: (now + 150 * j) as u64,
                                complete: false,
                                ..effects@[j]
                            },
                            effects@[j],
                            now as int,
                        )
                    },
            decreases self.weapons@.len() - i,
        {
            let slot = self.weapons[i];
            let area = if slot_ready(&slot, lightning_ok, self.position) {
                let kind = slot.kind();
                let mut w = *slot.get_inner();
                let a = w.attack(kind, wielder, enemies, layer, damage_mult);
                let mut updated = slot;
                updated.set_inner(w);
                self.weapons.set(i, updated);
                a
            } else {
                DamageArea::new_empty()
            };
            let mut effect = DamageEffect::from_damage_area(area.duplicate(), now);
            effect.delay(150 * (i as u64));
            let ghost before = effect;
            effect.update(now);
            areas.push(area);
            effects.push(effect);
            i = i + 1;
        }
        (areas, effects)
    }
}

impl Damageable for Character {
    fn get_health(&self) -> (res: i32)
        ensures
            res == self.health,
    {
        self.health
    }

    fn take_damage(&mut self, damage: i32)
        ensures
            *final(self) == damaged(*old(self), damage),
    {
        Character::take_damage(self, damage)
    }

    fn die(&mut self)
        ensures
            *final(self) == (Character { is_alive: false, ..*old(self) }),
    {
        Character::die(self)
    }

    fn is_alive(&self) -> (res: bool)
        ensures
            res == self.is_alive,
    {
        self.is_alive
    }
}

/// `fc`, `areas` and `effects` are the character `oc` after attacking the
/// enemies at time `now`, the areas its weapons hit and the effects shown
/// (see `Character::attack`).
pub open spec fn attacked(oc: Character, fc: Character, layer: &Layer, enemies: Seq<Enemy>, damage_mult: u64, now: u64, areas: Seq<DamageArea>, effects: Seq<DamageEffect>) -> bool {
    &&& fc.weapons@.len() == oc.weapons@.len()
    &&& fc == (Character { weapons: fc.weapons, ..oc })
    &&& areas.len() == oc.weapons@.len()
    &&& effects.len() == oc.weapons@.len()
    &&& forall|i: int|
        0 <= i < oc.weapons@.len() ==> {
            let w = #[trigger] oc.weapons@[i];
            let v = fc.weapons@[i];
            let wielder = CharacterPositionData {
                position: oc.position,
                facing: oc.facing,
            };
            &&& kind_of(v) == kind_of(w)
            &&& if attack_ready(w, enemies, oc.position) {
                &&& inner_of(v) is Some
                &&& attack_outcome(
                    kind_of(w),
                    inner_of(w).unwrap(),
                    inner_of(v).unwrap(),
                    areas[i],
                    wielder,
                    enemies,
                    layer,
                    damage_mult as int,
                )
            } else {
                &&& v == w
                &&& areas[i].damage_amount == 0
                &&& areas[i].area matches crate::coords::AreaWrapper::Chaos(c)
                    && c.position_list@.len() == 0
                &&& areas[i].duration == 0
                &&& areas[i].entity == EntityCharacters::Empty(plain_style())
                &&& !areas[i].blink
                &&& areas[i].weapon_stats is None
            }
            &&& same_damage_area(effects[i].damage_area, areas[i])
            &&& effects[i].start_time == now + 150 * i
            &&& effect_updated(
                DamageEffect {
                    start_time: (now + 150 * i) as u64,
                    complete: false,
                    ..effects[i]
                },
                effects[i],
                now as int,
            )
        }
}

} // verus!
