//! Enemies: their health, movement towards the player and the debuffs that
//! procs put on them.
use vstd::prelude::*;
use crate::coords::{Direction, Position, SquareArea, AreaWrapper, max_int, constrained_pos};
use crate::debuffs::{Debuff, DebuffTypes, Proc};
use crate::entities::{EntityCharacters, Style, Color, plain_style, hurt_style};
use crate::map::{Layer, layer_valid};
use crate::rng::{random_range_i32, random_ratio};
use crate::upgrades::clamp_i32;

verus! {

/// What an enemy leaves when it dies.
#[derive(Clone, Copy, Debug, PartialEq, Eq, Structural)]
pub struct EnemyDrops {
    pub gold: u128,
    pub xp: u128,
}

/// Represents an enemy in the game.
pub struct Enemy {
    pub position: Position,
    pub prev_position: Position,
    pub facing: Direction,
    pub damage: i32,
    pub health: i32,
    pub max_health: i32,
    pub is_alive: bool,
    pub entitychar: EntityCharacters,
    pub drops: EnemyDrops,
    pub debuffs: Vec<Debuff>,
    /// Whether the enemy took damage since its charge last went off, and
    /// how much it last took.
    pub got_hit: (bool, i32),
}

/// Coordinates from 0 to `i32::MAX / 2`, so that the distance to another
/// such position along both axes together, summed in `i32`, cannot
/// overflow.
pub open spec fn small_pos(p: Position) -> bool {
    0 <= p.0 <= 0x3fff_ffff && 0 <= p.1 <= 0x3fff_ffff
}

/// Absolute value.
pub open spec fn abs_int(v: int) -> int {
    if v >= 0 { v } else { -v }
}

/// The step from `p` towards `d`: along x where `along_x` holds (right
/// where `d` lies to the right, else left), otherwise along y (down where
/// `d` lies below, else up); negative coordinates are raised to 0.
pub open spec fn step_towards(p: Position, d: Position, along_x: bool) -> (Position, Direction) {
    let dx = d.0 - p.0;
    let dy = d.1 - p.1;
    if along_x {
        if dx > 0 {
            (Position(max_int(p.0 + 1, 0) as i32, max_int(p.1 as int, 0) as i32), Direction::RIGHT)
        } else {
            (Position(max_int(p.0 - 1, 0) as i32, max_int(p.1 as int, 0) as i32), Direction::LEFT)
        }
    } else {
        if dy > 0 {
            (Position(max_int(p.0 as int, 0) as i32, max_int(p.1 + 1, 0) as i32), Direction::DOWN)
        } else {
            (Position(max_int(p.0 as int, 0) as i32, max_int(p.1 - 1, 0) as i32), Direction::UP)
        }
    }
}

/// The step from `self_pos` towards `desired_location` along the axis
/// `along_x` picks.
pub fn step_towards_point(self_pos: &Position, desired_location: &Position, along_x: bool) -> (res: (
    Position,
    Direction,
))
    requires
        0 <= self_pos.0 && 0 <= self_pos.1,
        0 <= desired_location.0 && 0 <= desired_location.1,
    ensures
        res == step_towards(*self_pos, *desired_location, along_x),
{
    let (dist_x, dist_y) = self_pos.get_distance(desired_location);
    let (x, y) = self_pos.get();
    if along_x {
        if dist_x > 0 {
            (Position::new(x + 1, y), Direction::RIGHT)
        } else {
            (Position::new(x - 1, y), Direction::LEFT)
        }
    } else {
        if dist_y > 0 {
            (Position::new(x, y + 1), Direction::DOWN)
        } else {
            (Position::new(x, y - 1), Direction::UP)
        }
    }
}

/// One step from `self_pos` towards `desired_location`. Without `random`
/// the step is along x where the x distance is the larger, else along y;
/// with `random` the axis is drawn, x with chance
/// `max(|dx|, 1) / max(|dx| + |dy|, 1)`. The coordinates are not negative,
/// and the distance along both axes together, summed in `i32`, must fit.
pub fn move_to_point_granular(self_pos: &Position, desired_location: &Position, random: bool) -> (res: (
    Position,
    Direction,
))
    requires
        0 <= self_pos.0 && 0 <= self_pos.1,
        0 <= desired_location.0 && 0 <= desired_location.1,
        abs_int(desired_location.0 - self_pos.0) + abs_int(desired_location.1 - self_pos.1) <= i32::MAX,
    ensures
        !random ==> res == step_towards(
            *self_pos,
            *desired_location,
            abs_int(desired_location.0 - self_pos.0) > abs_int(desired_location.1 - self_pos.1),
        ),
        random ==> res == step_towards(*self_pos, *desired_location, true) || res == step_towards(
            *self_pos,
            *desired_location,
            false,
        ),
        random && desired_location.1 == self_pos.1 && desired_location.0 != self_pos.0 ==> res
            == step_towards(*self_pos, *desired_location, true),
{
    let (dist_x, dist_y) = self_pos.get_distance(desired_location);
    let ax: i32 = if dist_x >= 0 { dist_x } else { -dist_x };
    let ay: i32 = if dist_y >= 0 { dist_y } else { -dist_y };
    let total = ax + ay;
    let choice = if random {
        let num: u32 = if ax > 1 { ax as u32 } else { 1 };
        let den: u32 = if total > 1 { total as u32 } else { 1 };
        random_ratio(num, den)
    } else {
        ax > ay
    };
    step_towards_point(self_pos, desired_location, choice)
}

/// The number of debuffs of a list that have the given type.
pub open spec fn count_of_type(s: Seq<Debuff>, t: DebuffTypes) -> nat {
    s.filter(|d: Debuff| d.debuff_type == t).len()
}

/// The debuffs after a proc rolled `roll`: where the roll is at most the
/// chance, a flame burn is added while fewer than two are held and turns
/// into one flame ignite (with the burn's stats) once two are; any other
/// debuff is added while none of its type is held.
pub open spec fn after_proc(s: Seq<Debuff>, proc: Proc, roll: int) -> Seq<Debuff> {
    if roll > proc.chance {
        s
    } else if proc.debuff.debuff_type == DebuffTypes::FlameBurn {
        if count_of_type(s, DebuffTypes::FlameBurn) < 2 {
            s.push(proc.debuff)
        } else if count_of_type(s, DebuffTypes::FlameIgnite) < 1 {
            s.push(
                Debuff {
                    debuff_type: DebuffTypes::FlameIgnite,
                    stats: proc.debuff.stats,
                    complete: false,
                },
            )
        } else {
            s
        }
    } else if count_of_type(s, proc.debuff.debuff_type) < 1 {
        s.push(proc.debuff)
    } else {
        s
    }
}

/// The style an enemy's debuffs give it: bold for each mark, red for each
/// flame burn, applied in list order.
pub open spec fn debuffed_style(s: Style, ds: Seq<Debuff>) -> Style
    decreases ds.len(),
{
    if ds.len() == 0 {
        s
    } else {
        let prev = debuffed_style(s, ds.drop_last());
        match ds.last().debuff_type {
            DebuffTypes::MarkedForExplosion => Style { bold: true, ..prev },
            DebuffTypes::FlameBurn => Style { fg: Some(Color::Red), ..prev },
            _ => prev,
        }
    }
}

/// `a / b` rounded toward zero, as Rust divides integers.
pub open spec fn trunc_div(a: int, b: int) -> int {
    if a >= 0 { a / b } else { -((-a) / b) }
}

/// The entity an enemy or the character shows after its health changed:
/// plain at half its maximum health or more, hurt below.
pub open spec fn health_look(health: int, max_health: int, is_character: bool) -> EntityCharacters {
    let s = if health >= trunc_div(max_health, 2) { plain_style() } else { hurt_style() };
    if is_character { EntityCharacters::Character(s) } else { EntityCharacters::Enemy(s) }
}

/// `f` is `e` after taking `damage`, as `Enemy::take_damage` leaves it.
pub open spec fn hit_by(e: Enemy, f: Enemy, damage: i32) -> bool {
    &&& f.health == clamp_i32(e.health - damage)
    &&& f.got_hit == (true, damage)
    &&& f.entitychar == health_look(f.health as int, e.max_health as int, false)
    &&& f.is_alive == (e.is_alive && f.health > 0)
    &&& f.position == e.position
    &&& f.prev_position == e.prev_position
    &&& f.facing == e.facing
    &&& f.damage == e.damage
    &&& f.max_health == e.max_health
    &&& f.drops == e.drops
    &&& f.debuffs@ == e.debuffs@
}

/// The enemy `e` moved `steps` back from the way it faces, held inside
/// the layer, and turned around.
pub open spec fn shoved(e: Enemy, steps: int, layer: &Layer) -> Enemy {
    let (x, y) = (e.position.0 as int, e.position.1 as int);
    let (p, f) = match e.facing {
        Direction::UP => (Position(x as i32, (y + steps) as i32), Direction::DOWN),
        Direction::DOWN => (Position(x as i32, (y - steps) as i32), Direction::UP),
        Direction::LEFT => (Position((x + steps) as i32, y as i32), Direction::RIGHT),
        Direction::RIGHT => (Position((x - steps) as i32, y as i32), Direction::LEFT),
    };
    Enemy { position: constrained_pos(p, layer), prev_position: e.position, facing: f, ..e }
}

/// Two enemies that agree in every field, their debuffs compared as
/// sequences.
pub open spec fn same_enemy_spec(a: Enemy, b: Enemy) -> bool {
    &&& a.position == b.position
    &&& a.prev_position == b.prev_position
    &&& a.facing == b.facing
    &&& a.damage == b.damage
    &&& a.health == b.health
    &&& a.max_health == b.max_health
    &&& a.is_alive == b.is_alive
    &&& a.entitychar == b.entitychar
    &&& a.drops == b.drops
    &&& a.debuffs@ == b.debuffs@
    &&& a.got_hit == b.got_hit
}

impl Enemy {
    /// Creates an enemy at `position` with the given damage, health and drops,
    /// facing up with no debuff.
    pub fn new(position: Position, damage: i32, health: i32, drops: EnemyDrops) -> (res: Enemy)
        ensures
            res.position == position,
            res.prev_position == position,
            res.facing == Direction::UP,
            res.damage == damage,
            res.health == health,
            res.max_health == health,
            res.is_alive,
            res.entitychar == EntityCharacters::Enemy(plain_style()),
            res.drops == drops,
            res.debuffs@.len() == 0,
            res.got_hit == (false, 0i32),
    {
        Enemy {
            position,
            prev_position: position,
            facing: Direction::UP,
            damage,
            health,
            max_health: health,
            is_alive: true,
            entitychar: EntityCharacters::Enemy(Style::new()),
            drops,
            debuffs: Vec::new(),
            got_hit: (false, 0),
        }
    }

    /// What the enemy leaves when it dies.
    pub fn get_drops(&self) -> (res: EnemyDrops)
        ensures
            res == self.drops,
    {
        self.drops
    }

    /// Counts how many active debuffs share the type of `debuff` (the
    /// count taken modulo 2^32, as a cast to `u32` does).
    pub fn count_debuff(&self, debuff: &Debuff) -> (res: u32)
        ensures
            res == count_of_type(self.debuffs@, debuff.debuff_type) as u32,
    {
        let c = count_type_usize(&self.debuffs, debuff.debuff_type);
        #[verifier::truncate]
        (c as u32)
    }

    /// Puts the proc's debuff on the enemy as `after_proc` says for `roll`.
    pub fn apply_proc_roll(&mut self, proc: &Proc, roll: i32)
        ensures
            final(self).debuffs@ == after_proc(old(self).debuffs@, *proc, roll as int),
            final(self).position == old(self).position,
            final(self).prev_position == old(self).prev_position,
            final(self).facing == old(self).facing,
            final(self).damage == old(self).damage,
            final(self).health == old(self).health,
            final(self).max_health == old(self).max_health,
            final(self).is_alive == old(self).is_alive,
            final(self).entitychar == old(self).entitychar,
            final(self).drops == old(self).drops,
            final(self).got_hit == old(self).got_hit,
    {
        if roll as i64 > proc.chance as i64 {
            return;
        }
        match proc.debuff.debuff_type {
            DebuffTypes::FlameBurn => {
                if count_type_usize(&self.debuffs, DebuffTypes::FlameBurn) < 2 {
                    self.debuffs.push(proc.debuff);
                } else if count_type_usize(&self.debuffs, DebuffTypes::FlameIgnite) < 1 {
                    self.debuffs.push(
                        Debuff {
                            debuff_type: DebuffTypes::FlameIgnite,
                            stats: proc.debuff.stats,
                            complete: false,
                        },
                    );
                }
            },
            _ => {
                if count_type_usize(&self.debuffs, proc.debuff.debuff_type) < 1 {
                    self.debuffs.push(proc.debuff);
                }
            },
        }
    }

    /// Rolls a number from 1 to 100 and puts the proc's debuff on the enemy
    /// where the roll is at most the proc's chance (see `after_proc`).
    pub fn try_proc(&mut self, proc: &Proc)
        ensures
            exists|roll: int|
                1 <= roll <= 100 && final(self).debuffs@ == #[trigger] after_proc(
                    old(self).debuffs@,
                    *proc,
                    roll,
                ),
            proc.chance >= 100 ==> final(self).debuffs@ == after_proc(old(self).debuffs@, *proc, 1),
            proc.chance == 0 ==> final(self).debuffs@ == old(self).debuffs@,
            final(self).position == old(self).position,
            final(self).prev_position == old(self).prev_position,
            final(self).facing == old(self).facing,
            final(self).damage == old(self).damage,
            final(self).health == old(self).health,
            final(self).max_health == old(self).max_health,
            final(self).is_alive == old(self).is_alive,
            final(self).entitychar == old(self).entitychar,
            final(self).drops == old(self).drops,
            final(self).got_hit == old(self).got_hit,
    {
        let roll = random_range_i32(1, 101);
        self.apply_proc_roll(proc, roll);
    }

    /// Lowers the enemy's health by `damage` (raises it for a negative
    /// value; held to the bounds of `i32`), notes the hit, shows it hurt
    /// below half its maximum health, and kills it at 0 or below.
    pub fn take_damage(&mut self, damage: i32)
        ensures
            final(self).health == clamp_i32(old(self).health - damage),
            final(self).got_hit == (true, damage),
            final(self).entitychar == health_look(final(self).health as int, old(self).max_health as int, false),
            final(self).is_alive == (old(self).is_alive && final(self).health > 0),
            final(self).position == old(self).position,
            final(self).prev_position == old(self).prev_position,
            final(self).facing == old(self).facing,
            final(self).damage == old(self).damage,
            final(self).max_health == old(self).max_health,
            final(self).drops == old(self).drops,
            final(self).debuffs@ == old(self).debuffs@,
    {
        self.health = saturating_sub_i32(self.health, damage);
        self.got_hit = (true, damage);
        if self.health >= self.max_health / 2 {
            self.entitychar.replace(EntityCharacters::Enemy(Style::new()));
        }
        if self.health < self.max_health / 2 {
            self.entitychar.replace(EntityCharacters::Enemy(Style::new().fg(Color::Gray).italic()));
        }
        if self.health <= 0 {
            self.die();
        }
    }

    /// Marks the enemy dead.
    pub fn die(&mut self)
        ensures
            !final(self).is_alive,
            final(self).health == old(self).health,
            final(self).position == old(self).position,
            final(self).prev_position == old(self).prev_position,
            final(self).facing == old(self).facing,
            final(self).damage == old(self).damage,
            final(self).max_health == old(self).max_health,
            final(self).entitychar == old(self).entitychar,
            final(self).drops == old(self).drops,
            final(self).got_hit == old(self).got_hit,
            final(self).debuffs@ == old(self).debuffs@,
    {
        self.is_alive = false;
    }

    /// Whether the enemy is alive.
    pub fn is_alive(&self) -> (res: bool)
        ensures
            res == self.is_alive,
    {
        self.is_alive
    }

    /// The enemy's health.
    pub fn get_health(&self) -> (res: i32)
        ensures
            res == self.health,
    {
        self.health
    }

    /// The enemy's position.
    pub fn get_pos(&self) -> (res: Position)
        ensures
            res == self.position,
    {
        self.position
    }

    /// The enemy's position before its last move.
    pub fn get_prev_pos(&self) -> (res: Position)
        ensures
            res == self.prev_position,
    {
        self.prev_position
    }

    /// The direction the enemy faces.
    pub fn get_facing(&self) -> (res: Direction)
        ensures
            res == self.facing,
    {
        self.facing
    }

    /// The entity the enemy shows.
    pub fn get_entity_char(&self) -> (res: EntityCharacters)
        ensures
            res == self.entitychar,
    {
        self.entitychar
    }

    /// Moves the enemy to `new_pos`, keeping where it was.
    pub fn set_pos(&mut self, new_pos: Position)
        ensures
            final(self).position == new_pos,
            final(self).prev_position == old(self).position,
            final(self).facing == old(self).facing,
            final(self).damage == old(self).damage,
            final(self).health == old(self).health,
            final(self).max_health == old(self).max_health,
            final(self).is_alive == old(self).is_alive,
            final(self).entitychar == old(self).entitychar,
            final(self).drops == old(self).drops,
            final(self).got_hit == old(self).got_hit,
            final(self).debuffs@ == old(self).debuffs@,
    {
        self.prev_position = self.position;
        self.position = new_pos;
    }

    /// Turns the enemy to `facing` and moves it to `new_pos`.
    pub fn move_to(&mut self, new_pos: Position, facing: Direction)
        ensures
            final(self).position == new_pos,
            final(self).prev_position == old(self).position,
            final(self).facing == facing,
            final(self).damage == old(self).damage,
            final(self).health == old(self).health,
            final(self).max_health == old(self).max_health,
            final(self).is_alive == old(self).is_alive,
            final(self).entitychar == old(self).entitychar,
            final(self).drops == old(self).drops,
            final(self).got_hit == old(self).got_hit,
            final(self).debuffs@ == old(self).debuffs@,
    {
        self.facing = facing;
        self.set_pos(new_pos);
    }

    /// Moves the enemy `steps` back from the way it faces, held inside the
    /// layer, and turns it around. The step is taken in `i32`, where it must
    /// fit.
    pub fn move_back(&mut self, steps: i32, layer: &Layer)
        requires
            layer_valid(layer),
            0 <= steps,
            i32::MIN <= old(self).position.0 - steps && old(self).position.0 + steps <= i32::MAX,
            i32::MIN <= old(self).position.1 - steps && old(self).position.1 + steps <= i32::MAX,
        ensures
            same_enemy_spec(*final(self), shoved(*old(self), steps as int, layer)),
    {
        let (x, y) = self.position.get();
        let (mut p, f) = match self.facing {
            Direction::UP => (Position(x, y + steps), Direction::DOWN),
            Direction::DOWN => (Position(x, y - steps), Direction::UP),
            Direction::LEFT => (Position(x + steps, y), Direction::RIGHT),
            Direction::RIGHT => (Position(x - steps, y), Direction::LEFT),
        };
        p.constrain(layer);
        self.move_to(p, f);
    }

    /// Gives the enemy the style its debuffs call for, starting from the
    /// style it shows.
    pub fn change_style_with_debuff(&mut self)
        ensures
            final(self).entitychar == crate::entities::restyled(
                old(self).entitychar,
                debuffed_style(crate::entities::style_of(old(self).entitychar), old(self).debuffs@),
            ),
            final(self).debuffs@ == old(self).debuffs@,
            final(self).position == old(self).position,
            final(self).prev_position == old(self).prev_position,
            final(self).health == old(self).health,
            final(self).is_alive == old(self).is_alive,
            final(self).drops == old(self).drops,
            final(self).got_hit == old(self).got_hit,
            final(self).facing == old(self).facing,
            final(self).damage == old(self).damage,
            final(self).max_health == old(self).max_health,
    {
        let start = self.entitychar.style();
        let mut style = start;
        let mut i: usize = 0;
        while i < self.debuffs.len()
            invariant
                i <= self.debuffs@.len(),
                style == debuffed_style(start, self.debuffs@.take(i as int)),
            decreases self.debuffs@.len() - i,
        {
            assert(self.debuffs@.take(i + 1).drop_last() =~= self.debuffs@.take(i as int));
            match self.debuffs[i].debuff_type {
                DebuffTypes::MarkedForExplosion => {
                    style = style.bold();
                },
                DebuffTypes::FlameBurn => {
                    style = style.fg(Color::Red);
                },
                _ => {},
            }
            i = i + 1;
        }
        assert(self.debuffs@.take(i as int) =~= self.debuffs@);
        self.entitychar.set_style(style);
    }
}

/// `a - b`, held to the bounds of `i32`.
pub fn saturating_sub_i32(a: i32, b: i32) -> (res: i32)
    ensures
        res == clamp_i32(a - b),
{
    let v: i64 = a as i64 - b as i64;
    if v > i32::MAX as i64 {
        i32::MAX
    } else if v < i32::MIN as i64 {
        i32::MIN
    } else {
        v as i32
    }
}

/// `a + b`, held to the bounds of `i32`.
pub fn saturating_add_i32(a: i32, b: i32) -> (res: i32)
    ensures
        res == clamp_i32(a + b),
{
    let v: i64 = a as i64 + b as i64;
    if v > i32::MAX as i64 {
        i32::MAX
    } else if v < i32::MIN as i64 {
        i32::MIN
    } else {
        v as i32
    }
}

/// `a * b`, held to the bounds of `i32`.
pub fn saturating_mul_i32(a: i32, b: i32) -> (res: i32)
    ensures
        res == clamp_i32(a * b),
{
    assert(-0x4000_0000_0000_0000 <= a * b <= 0x4000_0000_0000_0000) by (nonlinear_arith)
        requires -0x8000_0000 <= a <= 0x7fff_ffff, -0x8000_0000 <= b <= 0x7fff_ffff;
    let v: i64 = a as i64 * b as i64;
    if v > i32::MAX as i64 {
        i32::MAX
    } else if v < i32::MIN as i64 {
        i32::MIN
    } else {
        v as i32
    }
}

/// The number of debuffs of the list that have type `t`.
fn count_type_usize(debuffs: &Vec<Debuff>, t: DebuffTypes) -> (res: usize)
    ensures
        res == count_of_type(debuffs@, t),
{
    let mut acc: usize = 0;
    let mut i: usize = 0;
    while i < debuffs.len()
        invariant
            i <= debuffs@.len(),
            acc == count_of_type(debuffs@.take(i as int), t),
            acc <= i,
        decreases debuffs@.len() - i,
    {
        proof {
            reveal_with_fuel(Seq::filter, 1);
            assert(debuffs@.take(i + 1).drop_last() =~= debuffs@.take(i as int));
        }
        if debuffs[i].debuff_type == t {
            acc = acc + 1;
        }
        i = i + 1;
    }
    assert(debuffs@.take(i as int) =~= debuffs@);
    acc
}

/// Things with health that take damage and die.
pub trait Damageable {
    /// The health left.
    fn get_health(&self) -> i32;

    /// Applies damage; a negative value heals.
    fn take_damage(&mut self, damage: i32);

    /// Marks the thing dead.
    fn die(&mut self);

    /// Whether the thing is alive.
    fn is_alive(&self) -> bool;
}

/// Things that carry debuffs.
pub trait Debuffable {
    /// Rolls for the proc's debuff to land (see `Enemy::try_proc`).
    fn try_proc(&mut self, proc: &Proc);

    /// Counts the debuffs of the type of `debuff`.
    fn count_debuff(&self, debuff: &Debuff) -> u32;
}

impl Damageable for Enemy {
    fn get_health(&self) -> (res: i32)
        ensures
            res == self.health,
    {
        self.health
    }

    fn take_damage(&mut self, damage: i32)
        ensures
            hit_by(*old(self), *final(self), damage),
    {
        Enemy::take_damage(self, damage)
    }

    fn die(&mut self)
        ensures
            same_enemy_spec(*final(self), Enemy { is_alive: false, ..*old(self) }),
    {
        Enemy::die(self)
    }

    fn is_alive(&self) -> (res: bool)
        ensures
            res == self.is_alive,
    {
        self.is_alive
    }
}

impl Debuffable for Enemy {
    fn try_proc(&mut self, proc: &Proc)
        ensures
            exists|roll: int|
                1 <= roll <= 100 && same_enemy_spec(
                    *final(self),
                    Enemy { debuffs: final(self).debuffs, ..*old(self) },
                ) && final(self).debuffs@ == #[trigger] after_proc(old(self).debuffs@, *proc, roll),
    {
        Enemy::try_proc(self, proc)
    }

    fn count_debuff(&self, debuff: &Debuff) -> (res: u32)
        ensures
            res == count_of_type(self.debuffs@, debuff.debuff_type) as u32,
    {
        Enemy::count_debuff(self, debuff)
    }
}

} // verus!
