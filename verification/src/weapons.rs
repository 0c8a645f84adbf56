//! Weapons ("methods"): their damage, their level-ups and the areas their
//! attacks cover.
use vstd::prelude::*;
use vstd::string::*;
use crate::chain::{all_on_map, lightning_chain, lightning_path, on_map, all_alive};
use crate::coords::{AreaWrapper, ChaosArea, Direction, Position, SquareArea, constrained_pos};
use crate::debuffs::{Debuff, DebuffStats, DebuffTypes, Elements, Proc};
use crate::effects::DamageArea;
use crate::enemy::{Enemy, trunc_div, after_proc, health_look};
use crate::coords::in_bounds;
use crate::stats::proc_seq;
use crate::entities::{Color, EntityCharacters, Style, plain_style};
use crate::map::{Layer, layer_valid};
use crate::powerup::{Poweruppable, PowerupTypes, PowerupUpgrade, uppercase_of, ascii_upper};
use crate::stats::{WeaponStats, debuff_stats};
use crate::upgrades::{ceil_div, clamp_i32};

verus! {

/// The four weapons.
#[derive(Clone, Copy, Debug, PartialEq, Eq, Structural)]
pub enum WeaponKind {
    Flash,
    Pillar,
    Lightning,
    Row,
}

/// The damage a weapon of the kind starts with before upgrades.
pub open spec fn base_damage_of(kind: WeaponKind) -> int {
    match kind {
        WeaponKind::Flash => 2,
        WeaponKind::Pillar => 3,
        WeaponKind::Lightning => 1,
        WeaponKind::Row => 6,
    }
}

/// The size a weapon of the kind starts with before upgrades.
pub open spec fn base_size_of(kind: WeaponKind) -> int {
    match kind {
        WeaponKind::Flash => 1,
        WeaponKind::Pillar => 0,
        WeaponKind::Lightning => 1,
        WeaponKind::Row => 0,
    }
}

/// Where a wielder stands and which way it faces.
#[derive(Clone, Copy, Debug, PartialEq, Eq, Structural)]
pub struct CharacterPositionData {
    pub position: Position,
    pub facing: Direction,
}

/// A weapon: its damage, its damage scalar in thousandths, its stats, its
/// element and the ticks since it last fired.
#[derive(Clone, Copy, Debug, PartialEq, Eq, Structural)]
pub struct Weapon {
    pub base_damage: i32,
    /// In thousandths.
    pub damage_scalar: u64,
    pub stats: WeaponStats,
    pub element: Option<Elements>,
    pub cooldown_ticks: u64,
}

pub type Flash = Weapon;

pub type Pillar = Weapon;

pub type Lightning = Weapon;

pub type Row = Weapon;

/// The damage of a weapon: its base damage times its scalar, rounded up
/// and held to `i32`.
pub open spec fn weapon_damage(w: Weapon) -> int {
    clamp_i32(ceil_div(w.base_damage * w.damage_scalar, 1000))
}

/// Whether the corners an attack computes from the wielder's position `p`
/// and the weapon's size (the position plus or minus the size, or half of
/// it) stay within `i32`, where the sums would overflow.
pub open spec fn attack_fits(w: Weapon, p: Position) -> bool {
    &&& i32::MIN <= p.0 - w.stats.size <= i32::MAX
    &&& i32::MIN <= p.0 + w.stats.size <= i32::MAX
    &&& i32::MIN <= p.1 - w.stats.size <= i32::MAX
    &&& i32::MIN <= p.1 + w.stats.size <= i32::MAX
}

/// The burn proc that FLASH gains at level 5 for honage `h` (thousandths).
pub open spec fn burn_proc(h: int) -> Proc {
    Proc {
        chance: 80,
        debuff: Debuff {
            debuff_type: DebuffTypes::FlameBurn,
            complete: false,
            stats: debuff_stats(
                Some(clamp_i32(ceil_div(h + 1000, 2000)) as i32),
                Some(clamp_i32(ceil_div(h, 4000)) as i32),
                false,
                true,
                false,
            ),
        },
    }
}

/// The charge proc that LIGHTNING gains at level 2 for honage `h`
/// (thousandths).
pub open spec fn charge_proc(h: int) -> Proc {
    Proc {
        chance: (if ceil_div(h, 50) > 100 { 100 } else { ceil_div(h, 50) }) as u32,
        debuff: Debuff {
            debuff_type: DebuffTypes::ShockCharge,
            complete: false,
            stats: debuff_stats(
                Some(clamp_i32(ceil_div(3 * h, 1000)) as i32),
                Some(clamp_i32(ceil_div(h, 1000)) as i32),
                false,
                false,
                true,
            ),
        },
    }
}

/// What reaching level `i` does to a weapon of the kind.
pub open spec fn level_effect(kind: WeaponKind, w: Weapon, i: int) -> Weapon {
    let h = w.stats.elemental_honage as int;
    match kind {
        WeaponKind::Flash => if i == 2 {
            Weapon {
                base_damage: (w.base_damage + 1) as i32,
                stats: WeaponStats {
                    size: (w.stats.size + 1) as i32,
                    damage_flat_boost: (w.stats.damage_flat_boost + 1) as i32,
                    ..w.stats
                },
                ..w
            }
        } else if i == 3 {
            Weapon {
                base_damage: (w.base_damage + 2) as i32,
                stats: WeaponStats {
                    damage_flat_boost: (w.stats.damage_flat_boost + 2) as i32,
                    ..w.stats
                },
                ..w
            }
        } else if i == 4 {
            Weapon { damage_scalar: (w.damage_scalar + 250) as u64, ..w }
        } else if i == 5 {
            Weapon {
                damage_scalar: (w.damage_scalar + 750) as u64,
                element: Some(Elements::Flame(w.stats.elemental_honage)),
                stats: WeaponStats {
                    procs: crate::stats::Procs { burn: Some(burn_proc(h)), ..w.stats.procs },
                    ..w.stats
                },
                ..w
            }
        } else {
            w
        },
        WeaponKind::Lightning => if i == 2 {
            Weapon {
                base_damage: (w.base_damage + 1) as i32,
                element: Some(Elements::Shock(w.stats.elemental_honage)),
                stats: WeaponStats {
                    size: (w.stats.size + 1) as i32,
                    damage_flat_boost: (w.stats.damage_flat_boost + 1) as i32,
                    procs: crate::stats::Procs { charge: Some(charge_proc(h)), ..w.stats.procs },
                    ..w.stats
                },
                ..w
            }
        } else if i == 3 {
            Weapon {
                base_damage: (w.base_damage + 2) as i32,
                stats: WeaponStats {
                    size: (w.stats.size + 1) as i32,
                    damage_flat_boost: (w.stats.damage_flat_boost + 2) as i32,
                    ..w.stats
                },
                ..w
            }
        } else if i == 4 {
            Weapon {
                damage_scalar: (w.damage_scalar + 250) as u64,
                stats: WeaponStats { size: (w.stats.size + 1) as i32, ..w.stats },
                ..w
            }
        } else if i == 5 {
            Weapon {
                damage_scalar: (w.damage_scalar + 750) as u64,
                stats: WeaponStats { size: (w.stats.size * 2) as i32, ..w.stats },
                ..w
            }
        } else {
            w
        },
        _ => if i == 2 {
            Weapon {
                base_damage: (w.base_damage + 1) as i32,
                stats: WeaponStats {
                    size: (w.stats.size + 1) as i32,
                    damage_flat_boost: (w.stats.damage_flat_boost + 1) as i32,
                    ..w.stats
                },
                ..w
            }
        } else if i == 3 {
            Weapon {
                base_damage: (w.base_damage + 2) as i32,
                stats: WeaponStats {
                    damage_flat_boost: (w.stats.damage_flat_boost + 2) as i32,
                    ..w.stats
                },
                ..w
            }
        } else if i == 4 {
            Weapon { damage_scalar: (w.damage_scalar + 250) as u64, ..w }
        } else if i == 5 {
            Weapon { damage_scalar: (w.damage_scalar + 750) as u64, ..w }
        } else {
            w
        },
    }
}

/// A weapon of the kind after reaching each level from `from + 1` to `to`
/// in turn.
pub open spec fn levels_applied(kind: WeaponKind, w: Weapon, from: int, to: int) -> Weapon
    decreases to - from,
{
    if to <= from {
        w
    } else {
        level_effect(kind, levels_applied(kind, w, from, to - 1), to)
    }
}


/// The base damage that levels up to `i` add.
pub open spec fn cum_base(kind: WeaponKind, i: int) -> int {
    if i >= 3 { 3 } else if i >= 2 { 1 } else { 0 }
}

/// The flat damage boost that levels up to `i` add.
pub open spec fn cum_flat(i: int) -> int {
    if i >= 3 { 3 } else if i >= 2 { 1 } else { 0 }
}

/// The damage scalar, in thousandths, that levels up to `i` add.
pub open spec fn cum_scalar(i: int) -> int {
    if i >= 5 { 1000 } else if i >= 4 { 250 } else { 0 }
}

/// The size that levels up to `i` add, before LIGHTNING doubles it.
pub open spec fn cum_size(kind: WeaponKind, i: int) -> int {
    if kind == WeaponKind::Lightning {
        if i >= 4 { 3 } else if i >= 3 { 2 } else if i >= 2 { 1 } else { 0 }
    } else {
        if i >= 2 { 1 } else { 0 }
    }
}

/// Whether raising a weapon of the kind from level `from` to `to` keeps
/// every number within its type, where the sums would overflow. The damage
/// numbers, the scalar and the size only grow by what the levels passed add
/// (see `cum_base`, `cum_flat`, `cum_scalar` and `cum_size`), so their
/// values at the end decide; LIGHTNING's size, doubled on passing level 5,
/// must also fit once doubled.
pub open spec fn levels_fit(kind: WeaponKind, w: Weapon, from: int, to: int) -> bool {
    let size = w.stats.size + cum_size(kind, to) - cum_size(kind, from);
    to <= from || {
        &&& w.base_damage + cum_base(kind, to) - cum_base(kind, from) <= i32::MAX
        &&& w.stats.damage_flat_boost + cum_flat(to) - cum_flat(from) <= i32::MAX
        &&& w.damage_scalar + cum_scalar(to) - cum_scalar(from) <= u64::MAX
        &&& size <= i32::MAX
        &&& (kind == WeaponKind::Lightning && from < 5 <= to) ==> i32::MIN <= 2 * size <= i32::MAX
    }
}

/// What levels up to `i` add to the base damage, the flat boost, the
/// scalar and the size (see `cum_base`, `cum_flat`, `cum_scalar` and
/// `cum_size`).
fn cum_adds(kind: WeaponKind, i: i32) -> (res: (i64, i64, i64, i64))
    ensures
        res.0 == cum_base(kind, i as int),
        res.1 == cum_flat(i as int),
        res.2 == cum_scalar(i as int),
        res.3 == cum_size(kind, i as int),
{
    let base: i64 = if i >= 3 { 3 } else if i >= 2 { 1 } else { 0 };
    let scalar: i64 = if i >= 5 { 1000 } else if i >= 4 { 250 } else { 0 };
    let size: i64 = match kind {
        WeaponKind::Lightning => if i >= 4 { 3 } else if i >= 3 { 2 } else if i >= 2 { 1 } else { 0 },
        _ => if i >= 2 { 1 } else { 0 },
    };
    (base, base, scalar, size)
}

/// Whether raising the weapon from level `from` to `to` keeps its numbers
/// within their types (see `levels_fit`).
pub fn levels_fit_check(kind: WeaponKind, w: &Weapon, from: i32, to: i32) -> (res: bool)
    ensures
        res == levels_fit(kind, *w, from as int, to as int),
{
    if to <= from {
        return true;
    }
    let (b1, f1, s1, z1) = cum_adds(kind, from);
    let (b2, f2, s2, z2) = cum_adds(kind, to);
    let size: i64 = w.stats.size as i64 + z2 - z1;
    let lo: i64 = i32::MIN as i64;
    let hi: i64 = i32::MAX as i64;
    let doubles = match kind {
        WeaponKind::Lightning => from < 5 && 5 <= to,
        _ => false,
    };
    w.base_damage as i64 + b2 - b1 <= hi && w.stats.damage_flat_boost as i64 + f2 - f1 <= hi
        && (w.damage_scalar as u128) + ((s2 - s1) as u128) <= u64::MAX as u128 && size <= hi
        && (!doubles || (lo <= 2 * size && 2 * size <= hi))
}

/// What level-ups from `from` to `j` do to the numbers of a
/// weapon: each rises by what the levels passed add, and LIGHTNING's size
/// doubles on passing level 5; honage, level and cooldown are untouched.
pub proof fn lemma_levels_bounded(kind: WeaponKind, w0: Weapon, from: int, j: int)
    requires
        levels_fit(kind, w0, from, j),
    ensures
        ({
            let w = levels_applied(kind, w0, from, j);
            let top = if j > from { j } else { from };
            &&& w.base_damage == w0.base_damage + cum_base(kind, top) - cum_base(kind, from)
            &&& w.stats.damage_flat_boost == w0.stats.damage_flat_boost + cum_flat(top) - cum_flat(from)
            &&& w.damage_scalar == w0.damage_scalar + cum_scalar(top) - cum_scalar(from)
            &&& (kind != WeaponKind::Lightning || top <= 4 || from >= 5) ==> w.stats.size
                == w0.stats.size + cum_size(kind, top) - cum_size(kind, from)
            &&& (kind == WeaponKind::Lightning && top >= 5 && from < 5) ==> w.stats.size == 2 * (
            w0.stats.size + cum_size(kind, 4) - cum_size(kind, from))
            &&& w.stats.elemental_honage == w0.stats.elemental_honage
            &&& w.stats.level == w0.stats.level
            &&& w.cooldown_ticks == w0.cooldown_ticks
        }),
    decreases j - from,
{
    if j > from {
        assert(levels_fit(kind, w0, from, j - 1));
        lemma_levels_bounded(kind, w0, from, j - 1);
        let prev = levels_applied(kind, w0, from, j - 1);
        assert(levels_applied(kind, w0, from, j) == level_effect(kind, prev, j));
    }
}

/// The area FLASH covers in front of a wielder at `p` facing `facing`.
pub open spec fn flash_square(p: Position, facing: Direction, size: int) -> SquareArea {
    let (x, y) = (p.0 as int, p.1 as int);
    match facing {
        Direction::DOWN => SquareArea {
            corner1: Position((x + size) as i32, (y + 1) as i32),
            corner2: Position((x - size) as i32, (y + size) as i32),
        },
        Direction::UP => SquareArea {
            corner1: Position((x - size) as i32, (y - 1) as i32),
            corner2: Position((x + size) as i32, (y - size) as i32),
        },
        Direction::LEFT => SquareArea {
            corner1: Position((x - 1) as i32, (y + size) as i32),
            corner2: Position((x - size) as i32, (y - size) as i32),
        },
        Direction::RIGHT => SquareArea {
            corner1: Position((x + 1) as i32, (y + size) as i32),
            corner2: Position((x + size) as i32, (y - size) as i32),
        },
    }
}

/// The column PILLAR covers: half its size either side of the wielder's x,
/// the whole height.
pub open spec fn pillar_square(p: Position, size: int) -> SquareArea {
    let half = trunc_div(size, 2);
    SquareArea {
        corner1: Position((p.0 - half) as i32, i32::MAX),
        corner2: Position((p.0 + half) as i32, 0),
    }
}

/// The row ROW covers: half its size either side of the wielder's y, the
/// whole width.
pub open spec fn row_square(p: Position, size: int) -> SquareArea {
    let half = trunc_div(size, 2);
    SquareArea {
        corner1: Position(0, (p.1 + half) as i32),
        corner2: Position(i32::MAX, (p.1 - half) as i32),
    }
}

/// A square area held inside the layer.
pub open spec fn constrained_square(a: SquareArea, layer: &Layer) -> SquareArea {
    SquareArea {
        corner1: constrained_pos(a.corner1, layer),
        corner2: constrained_pos(a.corner2, layer),
    }
}

/// Whether a weapon of the kind fires with `cd` ticks on its cooldown
/// counter, and the counter after the attempt. FLASH waits 1 tick and ROW
/// 5 between attacks (ROW also rests one more tick as its counter resets);
/// PILLAR and LIGHTNING fire every time.
pub open spec fn cooldown_step(kind: WeaponKind, cd: int) -> (bool, int) {
    match kind {
        WeaponKind::Flash => if 0 < cd < 1 {
            if cd + 1 == 1 { (true, cd + 2) } else { (false, cd + 1) }
        } else {
            (true, 1)
        },
        WeaponKind::Row => if 0 < cd < 5 {
            (false, cd + 1)
        } else if cd >= 5 {
            (false, 0)
        } else {
            (true, 1)
        },
        _ => (true, cd),
    }
}

/// The style an element gives an attack: red for flame, light yellow for
/// shock.
pub open spec fn element_style(e: Option<Elements>) -> Option<Style> {
    match e {
        Some(Elements::Flame(_)) => Some(Style { fg: Some(Color::Red), ..plain_style() }),
        Some(Elements::Shock(_)) => Some(Style { fg: Some(Color::LightYellow), ..plain_style() }),
        None => None,
    }
}

/// The damage an attack deals: the weapon's damage times the multiplier (in
/// thousandths), rounded up and held to `i32`. The product is exact: 10
/// times 1.1 deals 11, where a binary floating-point product lands just
/// above 11 and would round up to 12.
pub open spec fn attack_damage(w: Weapon, damage_mult: int) -> int {
    clamp_i32(ceil_div(weapon_damage(w) * damage_mult, 1000))
}

/// The entity an attack by a weapon of the kind shows, and for how many
/// milliseconds.
pub open spec fn attack_look(kind: WeaponKind, w: Weapon) -> (EntityCharacters, u64) {
    let styled = |e: EntityCharacters| match element_style(w.element) {
        Some(es) => crate::entities::restyled(e, es),
        None => e,
    };
    match kind {
        WeaponKind::Flash => (
            styled(EntityCharacters::AttackBlackout(Style { fg: Some(Color::White), bold: true, italic: false })),
            50,
        ),
        WeaponKind::Lightning => (
            styled(EntityCharacters::AttackMist(Style { fg: Some(Color::Gray), ..plain_style() })),
            100,
        ),
        _ => (EntityCharacters::AttackWeak(Style { fg: Some(Color::Gray), ..plain_style() }), 50),
    }
}

/// The square an attack by FLASH, PILLAR or ROW covers, before it is held
/// to the layer.
pub open spec fn attack_square(kind: WeaponKind, w: Weapon, wielder: CharacterPositionData) -> SquareArea {
    match kind {
        WeaponKind::Flash => flash_square(wielder.position, wielder.facing, w.stats.size as int),
        WeaponKind::Pillar => pillar_square(wielder.position, w.stats.size as int),
        _ => row_square(wielder.position, w.stats.size as int),
    }
}

/// The positions of a LIGHTNING attack, before they are held to the layer.
pub open spec fn lightning_positions(w: Weapon, wielder: CharacterPositionData, enemies: Seq<Enemy>) -> Seq<Position> {
    lightning_chain(
        enemies,
        all_alive(enemies.len()),
        wielder.position,
        (if w.stats.size > 0 { w.stats.size as int } else { 0 }) as nat,
    )
}


/// `v / 1000` rounded up and held to `i32`.
fn ceil_thousandth(v: i128) -> (res: i32)
    requires
        -0x1000_0000_0000_0000_0000_0000_0000 <= v <= 0x1000_0000_0000_0000_0000_0000_0000,
    ensures
        res == clamp_i32(ceil_div(v as int, 1000)),
{
    ceil_div_i32(v, 1000)
}

/// `v / d` rounded up and held to `i32`.
pub fn ceil_div_i32(v: i128, d: i128) -> (res: i32)
    requires
        -0x1000_0000_0000_0000_0000_0000_0000 <= v <= 0x1000_0000_0000_0000_0000_0000_0000,
        0 < d <= 0x1_0000_0000,
    ensures
        res == clamp_i32(ceil_div(v as int, d as int)),
{
    let scaled: i128 = if v >= 0 {
        (v + d - 1) / d
    } else {
        let q = (-v) / d;
        proof {
            let r = (-v) % (d as int);
            vstd::arithmetic::div_mod::lemma_fundamental_div_mod(-v as int, d as int);
            assert(q as int == (-v as int) / (d as int));
            assert(v + d - 1 == (-(q as int)) * (d as int) + (d - 1 - r)) by (nonlinear_arith)
                requires -v == (d as int) * ((-v as int) / (d as int)) + r, q as int == (-v as int) / (d as int);
            assert(0 <= r < d);
            vstd::arithmetic::div_mod::lemma_fundamental_div_mod_converse(
                v + d - 1,
                d as int,
                -(q as int),
                d - 1 - r,
            );
        }
        -q
    };
    if scaled > i32::MAX as i128 {
        i32::MAX
    } else if scaled < i32::MIN as i128 {
        i32::MIN
    } else {
        scaled as i32
    }
}

/// What attacking does to a weapon of the kind (`w` before, `new` after)
/// and the damage area `res` it gives: where the cooldown lets it fire
/// (see `cooldown_step`), the area it covers held to the layer, dealing its
/// damage times `dm` (thousandths) and carrying its stats; otherwise an
/// empty damage area.
pub open spec fn attack_outcome(
    kind: WeaponKind,
    w: Weapon,
    new: Weapon,
    res: DamageArea,
    wielder: CharacterPositionData,
    enemies: Seq<Enemy>,
    layer: &Layer,
    dm: int,
) -> bool {
    &&& new == (Weapon { cooldown_ticks: cooldown_step(kind, w.cooldown_ticks as int).1 as u64, ..w })
    &&& !cooldown_step(kind, w.cooldown_ticks as int).0 ==> {
        &&& res.damage_amount == 0
        &&& res.area matches AreaWrapper::Chaos(c) && c.position_list@.len() == 0
        &&& res.duration == 0
        &&& res.entity == EntityCharacters::Empty(plain_style())
        &&& !res.blink
        &&& res.weapon_stats is None
    }
    &&& cooldown_step(kind, w.cooldown_ticks as int).0 ==> {
        &&& res.damage_amount == attack_damage(w, dm)
        &&& res.entity == attack_look(kind, w).0
        &&& res.duration == attack_look(kind, w).1
        &&& !res.blink
        &&& res.weapon_stats == Some(w.stats)
        &&& kind != WeaponKind::Lightning ==> res.area == AreaWrapper::Square(
            constrained_square(attack_square(kind, w, wielder), layer),
        )
        &&& kind == WeaponKind::Lightning ==> (res.area matches AreaWrapper::Chaos(c) && {
            let lp = lightning_positions(w, wielder, enemies);
            &&& c.position_list@.len() == lp.len()
            &&& forall|i: int|
                0 <= i < lp.len() ==> c.position_list@[i] == constrained_pos(#[trigger] lp[i], layer)
        })
    }
}

/// A new weapon of the kind built on `stats`: its base damage and size
/// add those of the stats, its scalar is 1.
pub open spec fn new_weapon(kind: WeaponKind, stats: WeaponStats) -> Weapon {
    Weapon {
        base_damage: (base_damage_of(kind) + stats.damage_flat_boost) as i32,
        damage_scalar: 1000,
        cooldown_ticks: 0,
        stats: WeaponStats { size: (base_size_of(kind) + stats.size) as i32, ..stats },
        element: None,
    }
}

impl Weapon {
    /// A weapon of the kind built on the player's weapon stats: its base
    /// damage and size add those of the stats, its scalar is 1.
    pub fn new(kind: WeaponKind, base_weapon_stats: WeaponStats) -> (res: Weapon)
        requires
            i32::MIN <= base_damage_of(kind) + base_weapon_stats.damage_flat_boost <= i32::MAX,
            i32::MIN <= base_size_of(kind) + base_weapon_stats.size <= i32::MAX,
        ensures
            res.base_damage == base_damage_of(kind) + base_weapon_stats.damage_flat_boost,
            res.damage_scalar == 1000,
            res.cooldown_ticks == 0,
            res.stats == (WeaponStats {
                size: (base_size_of(kind) + base_weapon_stats.size) as i32,
                ..base_weapon_stats
            }),
            res.element is None,
    {
        let (base_damage, base_size): (i32, i32) = match kind {
            WeaponKind::Flash => (2, 1),
            WeaponKind::Pillar => (3, 0),
            WeaponKind::Lightning => (1, 1),
            WeaponKind::Row => (6, 0),
        };
        Weapon {
            base_damage: base_damage + base_weapon_stats.damage_flat_boost,
            damage_scalar: 1000,
            cooldown_ticks: 0,
            stats: WeaponStats { size: base_size + base_weapon_stats.size, ..base_weapon_stats },
            element: None,
        }
    }

    /// The weapon's damage: base damage times scalar, rounded up.
    pub fn get_damage(&self) -> (res: i32)
        ensures
            res == weapon_damage(*self),
    {
        let b = self.base_damage as i128;
        let m = self.damage_scalar as i128;
        assert(-0x1000_0000_0000_0000_0000_0000_0000 <= b * m <= 0x1000_0000_0000_0000_0000_0000_0000)
            by (nonlinear_arith)
            requires -0x8000_0000 <= b <= 0x7fff_ffff, 0 <= m <= 0xffff_ffff_ffff_ffff;
        ceil_thousandth(b * m)
    }

    /// The element the weapon is imbued with, if any.
    pub fn get_element(&self) -> (res: Option<Elements>)
        ensures
            res == self.element,
    {
        self.element
    }

    /// The style the weapon's element gives its attacks, if any.
    pub fn get_elemental_style(&self) -> (res: Option<Style>)
        ensures
            res == element_style(self.element),
    {
        match self.element {
            Some(Elements::Flame(_)) => Some(Style::new().fg(Color::Red)),
            Some(Elements::Shock(_)) => Some(Style::new().fg(Color::LightYellow)),
            None => None,
        }
    }

    /// The weapon's level.
    pub fn get_level(&self) -> (res: i32)
        ensures
            res == self.stats.level,
    {
        self.stats.level
    }

    /// Applies what reaching level `i` does.
    fn apply_level(&mut self, kind: WeaponKind, i: i32)
        requires
            levels_fit(kind, *old(self), i - 1, i as int),
        ensures
            *final(self) == level_effect(kind, *old(self), i as int),
    {
        let h = self.stats.elemental_honage;
        match kind {
            WeaponKind::Flash => {
                if i == 2 {
                    self.stats.size = self.stats.size + 1;
                    self.stats.damage_flat_boost = self.stats.damage_flat_boost + 1;
                    self.base_damage = self.base_damage + 1;
                } else if i == 3 {
                    self.stats.damage_flat_boost = self.stats.damage_flat_boost + 2;
                    self.base_damage = self.base_damage + 2;
                } else if i == 4 {
                    self.damage_scalar = self.damage_scalar + 250;
                } else if i == 5 {
                    self.damage_scalar = self.damage_scalar + 750;
                    self.element = Some(Elements::Flame(h));
                    let size = ceil_div_i32((h as i128) + 1000, 2000);
                    let damage = ceil_div_i32(h as i128, 4000);
                    self.stats.procs.burn = Some(
                        Proc {
                            chance: 80,
                            debuff: Debuff {
                                debuff_type: DebuffTypes::FlameBurn,
                                complete: false,
                                stats: DebuffStats {
                                    size: Some(size),
                                    damage: Some(damage),
                                    misc_value: None,
                                    on_death_effect: false,
                                    on_tick_effect: true,
                                    on_damage_effect: false,
                                },
                            },
                        },
                    );
                }
            },
            WeaponKind::Lightning => {
                if i == 2 {
                    self.stats.size = self.stats.size + 1;
                    self.stats.damage_flat_boost = self.stats.damage_flat_boost + 1;
                    self.base_damage = self.base_damage + 1;
                    self.element = Some(Elements::Shock(h));
                    let c = h / 50 + if h % 50 == 0 { 0 } else { 1 };
                    let chance: u32 = if c > 100 { 100 } else { c as u32 };
                    let size = ceil_thousandth(3 * (h as i128));
                    let damage = ceil_thousandth(h as i128);
                    self.stats.procs.charge = Some(
                        Proc {
                            chance,
                            debuff: Debuff {
                                debuff_type: DebuffTypes::ShockCharge,
                                complete: false,
                                stats: DebuffStats {
                                    size: Some(size),
                                    damage: Some(damage),
                                    misc_value: None,
                                    on_death_effect: false,
                                    on_tick_effect: false,
                                    on_damage_effect: true,
                                },
                            },
                        },
                    );
                } else if i == 3 {
                    self.stats.size = self.stats.size + 1;
                    self.stats.damage_flat_boost = self.stats.damage_flat_boost + 2;
                    self.base_damage = self.base_damage + 2;
                } else if i == 4 {
                    self.stats.size = self.stats.size + 1;
                    self.damage_scalar = self.damage_scalar + 250;
                } else if i == 5 {
                    self.stats.size = self.stats.size * 2;
                    self.damage_scalar = self.damage_scalar + 750;
                }
            },
            _ => {
                if i == 2 {
                    self.stats.size = self.stats.size + 1;
                    self.stats.damage_flat_boost = self.stats.damage_flat_boost + 1;
                    self.base_damage = self.base_damage + 1;
                } else if i == 3 {
                    self.stats.damage_flat_boost = self.stats.damage_flat_boost + 2;
                    self.base_damage = self.base_damage + 2;
                } else if i == 4 {
                    self.damage_scalar = self.damage_scalar + 250;
                } else if i == 5 {
                    self.damage_scalar = self.damage_scalar + 750;
                }
            },
        }
    }

    /// Raises the weapon from the offer's current level to its new level,
    /// applying each level passed in turn; an offer that does not raise the
    /// level changes nothing.
    pub fn upgrade_self(&mut self, kind: WeaponKind, powerup: &PowerupUpgrade)
        requires
            levels_fit(kind, *old(self), powerup.curr_level as int, powerup.new_level as int),
        ensures
            powerup.new_level <= powerup.curr_level ==> *final(self) == *old(self),
            powerup.new_level > powerup.curr_level ==> *final(self) == levels_applied(
                kind,
                Weapon { stats: WeaponStats { level: powerup.new_level, ..old(self).stats }, ..*old(self) },
                powerup.curr_level as int,
                powerup.new_level as int,
            ),
    {
        let from = powerup.get_current_level();
        let to = powerup.get_new_level();
        if to <= from {
            return;
        }
        self.stats.level = to;
        let ghost w0 = *self;
        let mut i: i64 = from as i64 + 1;
        while i <= to as i64
            invariant
                from < i <= to + 1,
                levels_fit(kind, w0, from as int, to as int),
                *self == levels_applied(kind, w0, from as int, i - 1),
            decreases to - i + 1,
        {
            proof {
                assert(levels_fit(kind, w0, from as int, i - 1));
                lemma_levels_bounded(kind, w0, from as int, i - 1);
            }
            self.apply_level(kind, i as i32);
            i = i + 1;
        }
    }

    /// Attacks from the wielder's position: where the weapon's cooldown lets
    /// it fire (see `cooldown_step`), the area it covers held to the layer,
    /// dealing its damage times `damage_mult` (thousandths) and carrying its
    /// stats; otherwise an empty damage area. The wielder stands on the map
    /// (see `on_map`) and the corners of the area fit in `i32` (see
    /// `attack_fits`).
    pub fn attack(
        &mut self,
        kind: WeaponKind,
        wielder: CharacterPositionData,
        enemies: &Vec<Enemy>,
        layer: &Layer,
        damage_mult: u64,
    ) -> (res: DamageArea)
        requires
            layer_valid(layer),
            attack_fits(*old(self), wielder.position),
            old(self).cooldown_ticks < u64::MAX,
            on_map(wielder.position),
            kind == WeaponKind::Lightning ==> all_on_map(enemies@),
        ensures
            attack_outcome(kind, *old(self), *final(self), res, wielder, enemies@, layer, damage_mult as int),
    {
        // cooldown
        match kind {
            WeaponKind::Flash => {
                let base: u64 = 1;
                if self.cooldown_ticks > 0 && self.cooldown_ticks < base {
                    self.cooldown_ticks = self.cooldown_ticks + 1;
                    if self.cooldown_ticks != base {
                        return DamageArea::new_empty();
                    }
                } else if self.cooldown_ticks >= base {
                    self.cooldown_ticks = 0;
                }
            },
            WeaponKind::Row => {
                let base: u64 = 5;
                if self.cooldown_ticks > 0 && self.cooldown_ticks < base {
                    self.cooldown_ticks = self.cooldown_ticks + 1;
                    return DamageArea::new_empty();
                } else if self.cooldown_ticks >= base {
                    self.cooldown_ticks = 0;
                    return DamageArea::new_empty();
                }
            },
            _ => {},
        }
        let (x, y) = wielder.position.get();
        let size = self.stats.size;
        let damage = self.get_damage();
        assert(-0x1000_0000_0000_0000_0000_0000_0000 <= (damage as int) * (damage_mult as int) <= 0x1000_0000_0000_0000_0000_0000_0000)
            by (nonlinear_arith)
            requires -0x8000_0000 <= damage <= 0x7fff_ffff, 0 <= damage_mult <= 0xffff_ffff_ffff_ffff;
        let dm = damage as i128 * damage_mult as i128;
        let damage_amount = ceil_thousandth(dm);
        let area = match kind {
            WeaponKind::Flash => {
                let mut a = match wielder.facing {
                    Direction::DOWN => SquareArea {
                        corner1: Position(x + size, y + 1),
                        corner2: Position(x - size, y + size),
                    },
                    Direction::UP => SquareArea {
                        corner1: Position(x - size, y - 1),
                        corner2: Position(x + size, y - size),
                    },
                    Direction::LEFT => SquareArea {
                        corner1: Position(x - 1, y + size),
                        corner2: Position(x - size, y - size),
                    },
                    Direction::RIGHT => SquareArea {
                        corner1: Position(x + 1, y + size),
                        corner2: Position(x + size, y - size),
                    },
                };
                a.constrain(layer);
                AreaWrapper::Square(a)
            },
            WeaponKind::Pillar => {
                let half = size / 2;
                let mut a = SquareArea {
                    corner1: Position(x - half, i32::MAX),
                    corner2: Position(x + half, 0),
                };
                a.constrain(layer);
                AreaWrapper::Square(a)
            },
            WeaponKind::Row => {
                let half = size / 2;
                let mut a = SquareArea {
                    corner1: Position(0, y + half),
                    corner2: Position(i32::MAX, y - half),
                };
                a.constrain(layer);
                AreaWrapper::Square(a)
            },
            WeaponKind::Lightning => {
                let mut a = ChaosArea::new(lightning_path(enemies, wielder.position, size));
                a.constrain(layer);
                AreaWrapper::Chaos(a)
            },
        };
        let mut entity = match kind {
            WeaponKind::Flash => EntityCharacters::AttackBlackout(Style::new().bold().fg(Color::White)),
            WeaponKind::Lightning => EntityCharacters::AttackMist(Style::new().fg(Color::Gray)),
            _ => EntityCharacters::AttackWeak(Style::new().fg(Color::Gray)),
        };
        match kind {
            WeaponKind::Flash | WeaponKind::Lightning => {
                if let Some(style) = self.get_elemental_style() {
                    entity.set_style(style);
                }
            },
            _ => {},
        }
        let duration: u64 = match kind {
            WeaponKind::Lightning => 100,
            _ => 50,
        };
        match kind {
            WeaponKind::Flash | WeaponKind::Row => {
                self.cooldown_ticks = self.cooldown_ticks + 1;
            },
            _ => {},
        }
        DamageArea {
            area,
            damage_amount,
            entity,
            duration,
            blink: false,
            weapon_stats: Some(self.stats),
        }
    }
}


/// The weapon kind each wrapper stands for.
pub open spec fn kind_of(w: WeaponWrapper) -> WeaponKind {
    match w {
        WeaponWrapper::Flash(_) => WeaponKind::Flash,
        WeaponWrapper::Pillar(_) => WeaponKind::Pillar,
        WeaponWrapper::Lightning(_) => WeaponKind::Lightning,
        WeaponWrapper::Row(_) => WeaponKind::Row,
    }
}

/// The weapon a wrapper holds, if any.
pub open spec fn inner_of(w: WeaponWrapper) -> Option<Weapon> {
    match w {
        WeaponWrapper::Flash(x) => x,
        WeaponWrapper::Pillar(x) => x,
        WeaponWrapper::Lightning(x) => x,
        WeaponWrapper::Row(x) => x,
    }
}

/// A wrapper of the kind holding `inner`.
pub open spec fn wrap(kind: WeaponKind, inner: Option<Weapon>) -> WeaponWrapper {
    match kind {
        WeaponKind::Flash => WeaponWrapper::Flash(inner),
        WeaponKind::Pillar => WeaponWrapper::Pillar(inner),
        WeaponKind::Lightning => WeaponWrapper::Lightning(inner),
        WeaponKind::Row => WeaponWrapper::Row(inner),
    }
}

/// The name a weapon of the kind goes by.
pub open spec fn weapon_name(kind: WeaponKind) -> Seq<char> {
    match kind {
        WeaponKind::Flash => "FLASH"@,
        WeaponKind::Pillar => "PILLAR"@,
        WeaponKind::Lightning => "LIGHTNING"@,
        WeaponKind::Row => "ROW"@,
    }
}

/// Whether `s` names the kind, in either of its two spellings.
pub open spec fn names_weapon(s: Seq<char>, kind: WeaponKind) -> bool {
    match kind {
        WeaponKind::Flash => s == "Flash"@ || s == "FLASH"@,
        WeaponKind::Pillar => s == "Pillar"@ || s == "PILLAR"@,
        WeaponKind::Lightning => s == "Lightning"@ || s == "LIGHTNING"@,
        WeaponKind::Row => s == "Row"@ || s == "ROW"@,
    }
}

/// A weapon slot: which weapon it is and, once it is populated, the weapon.
#[derive(Clone, Copy, Debug)]
pub enum WeaponWrapper {
    Flash(Option<Weapon>),
    Pillar(Option<Weapon>),
    Lightning(Option<Weapon>),
    Row(Option<Weapon>),
}

impl PartialEq for WeaponWrapper {
    /// Two slots are equal where they stand for the same weapon.
    fn eq(&self, other: &Self) -> (res: bool) {
        self.kind() == other.kind()
    }
}

impl vstd::std_specs::cmp::PartialEqSpecImpl for WeaponWrapper {
    open spec fn obeys_eq_spec() -> bool {
        true
    }

    open spec fn eq_spec(&self, other: &WeaponWrapper) -> bool {
        kind_of(*self) == kind_of(*other)
    }
}

/// Whether two strings are equal.
pub fn str_equals(a: &str, b: &str) -> (res: bool)
    ensures
        res == (a@ == b@),
{
    a.to_owned() == b.to_owned()
}

impl WeaponWrapper {
    /// The weapon this slot stands for.
    pub fn kind(&self) -> (res: WeaponKind)
        ensures
            res == kind_of(*self),
    {
        match self {
            WeaponWrapper::Flash(_) => WeaponKind::Flash,
            WeaponWrapper::Pillar(_) => WeaponKind::Pillar,
            WeaponWrapper::Lightning(_) => WeaponKind::Lightning,
            WeaponWrapper::Row(_) => WeaponKind::Row,
        }
    }

    /// An empty slot for each weapon, in the order FLASH, PILLAR, LIGHTNING,
    /// ROW.
    pub fn iter() -> (res: Vec<WeaponWrapper>)
        ensures
            res@ == seq![
                WeaponWrapper::Flash(None),
                WeaponWrapper::Pillar(None),
                WeaponWrapper::Lightning(None),
                WeaponWrapper::Row(None),
            ],
    {
        vec![
            WeaponWrapper::Flash(None),
            WeaponWrapper::Pillar(None),
            WeaponWrapper::Lightning(None),
            WeaponWrapper::Row(None),
        ]
    }

    /// The name of the weapon this slot stands for.
    pub fn name(&self) -> (res: &'static str)
        ensures
            res@ == weapon_name(kind_of(*self)),
    {
        match self {
            WeaponWrapper::Flash(_) => "FLASH",
            WeaponWrapper::Pillar(_) => "PILLAR",
            WeaponWrapper::Lightning(_) => "LIGHTNING",
            WeaponWrapper::Row(_) => "ROW",
        }
    }

    /// The empty slot of the weapon `s` names ("Flash" or "FLASH", and so
    /// on), or `None` where it names none.
    pub fn from_str(s: &str) -> (res: Option<WeaponWrapper>)
        ensures
            match res {
                Some(w) => inner_of(w) is None && names_weapon(s@, kind_of(w)),
                None => forall|k: WeaponKind| !names_weapon(s@, k),
            },
    {
        if str_equals(s, "Flash") || str_equals(s, "FLASH") {
            Some(WeaponWrapper::Flash(None))
        } else if str_equals(s, "Pillar") || str_equals(s, "PILLAR") {
            Some(WeaponWrapper::Pillar(None))
        } else if str_equals(s, "Lightning") || str_equals(s, "LIGHTNING") {
            Some(WeaponWrapper::Lightning(None))
        } else if str_equals(s, "Row") || str_equals(s, "ROW") {
            Some(WeaponWrapper::Row(None))
        } else {
            proof {
                assert forall|k: WeaponKind| !names_weapon(s@, k) by {
                    match k {
                        WeaponKind::Flash => {},
                        WeaponKind::Pillar => {},
                        WeaponKind::Lightning => {},
                        WeaponKind::Row => {},
                    }
                }
            }
            None
        }
    }

    /// The weapon in the slot.
    pub fn get_inner(&self) -> (res: &Weapon)
        requires
            inner_of(*self) is Some,
        ensures
            Some(*res) == inner_of(*self),
    {
        match self {
            WeaponWrapper::Flash(w) => w.as_ref().unwrap(),
            WeaponWrapper::Pillar(w) => w.as_ref().unwrap(),
            WeaponWrapper::Lightning(w) => w.as_ref().unwrap(),
            WeaponWrapper::Row(w) => w.as_ref().unwrap(),
        }
    }

    /// Puts `inner` in the slot.
    pub fn set_inner(&mut self, inner: Weapon)
        ensures
            *final(self) == wrap(kind_of(*old(self)), Some(inner)),
    {
        *self = match self {
            WeaponWrapper::Flash(_) => WeaponWrapper::Flash(Some(inner)),
            WeaponWrapper::Pillar(_) => WeaponWrapper::Pillar(Some(inner)),
            WeaponWrapper::Lightning(_) => WeaponWrapper::Lightning(Some(inner)),
            WeaponWrapper::Row(_) => WeaponWrapper::Row(Some(inner)),
        };
    }

    /// Fills the slot with a new weapon of its kind built on `weapon_stats`.
    pub fn populate_inner(&mut self, weapon_stats: WeaponStats)
        requires
            i32::MIN <= base_damage_of(kind_of(*old(self))) + weapon_stats.damage_flat_boost <= i32::MAX,
            i32::MIN <= base_size_of(kind_of(*old(self))) + weapon_stats.size <= i32::MAX,
        ensures
            kind_of(*final(self)) == kind_of(*old(self)),
            inner_of(*final(self)) matches Some(w) && {
                &&& w.base_damage == base_damage_of(kind_of(*old(self))) + weapon_stats.damage_flat_boost
                &&& w.damage_scalar == 1000
                &&& w.cooldown_ticks == 0
                &&& w.stats == (WeaponStats {
                    size: (base_size_of(kind_of(*old(self))) + weapon_stats.size) as i32,
                    ..weapon_stats
                })
                &&& w.element is None
            },
    {
        let w = Weapon::new(self.kind(), weapon_stats);
        self.set_inner(w);
    }

    /// The damage of the weapon in the slot.
    pub fn get_damage(&self) -> (res: i32)
        requires
            inner_of(*self) is Some,
        ensures
            res == weapon_damage(inner_of(*self).unwrap()),
    {
        self.get_inner().get_damage()
    }
}

/// The index of the strongest weapon as `Iterator::max_by` finds it when
/// told that a weapon is greater only where its damage is greater: going
/// through the list, a later weapon replaces the one kept unless the kept
/// one does more damage, so the last of the strongest wins.
pub open spec fn strongest_index(ws: Seq<WeaponWrapper>, n: int) -> int
    decreases n,
{
    if n <= 1 {
        0
    } else {
        let j = strongest_index(ws, n - 1);
        if weapon_damage(inner_of(ws[j]).unwrap()) > weapon_damage(inner_of(ws[n - 1]).unwrap()) {
            j
        } else {
            n - 1
        }
    }
}

/// The strongest weapon of the list, the last of them on a tie; `None` for
/// an empty list.
pub fn get_strongest_weapon(weapons: &[WeaponWrapper]) -> (res: Option<&WeaponWrapper>)
    requires
        weapons@.len() >= 2 ==> forall|i: int| 0 <= i < weapons@.len() ==> inner_of(#[trigger] weapons@[i]) is Some,
    ensures
        weapons@.len() == 0 <==> res is None,
        res matches Some(w) ==> *w == weapons@[strongest_index(weapons@, weapons@.len() as int)],
{
    if weapons.len() == 0 {
        return None;
    }
    let mut best: usize = 0;
    let mut i: usize = 1;
    while i < weapons.len()
        invariant
            1 <= i <= weapons@.len(),
            best < i,
            best == strongest_index(weapons@, i as int),
            weapons@.len() >= 2 ==> forall|k: int| 0 <= k < weapons@.len() ==> inner_of(#[trigger] weapons@[k]) is Some,
        decreases weapons@.len() - i,
    {
        if weapons[best].get_damage() > weapons[i].get_damage() {
        } else {
            best = i;
        }
        i = i + 1;
    }
    Some(&weapons[best])
}

/// The debuffs of an enemy after each proc with a chance above 0 is tried
/// in turn with the matching roll.
pub open spec fn procs_applied(s: Seq<Debuff>, procs: Seq<Proc>, rolls: Seq<int>) -> Seq<Debuff>
    decreases procs.len(),
{
    if procs.len() == 0 {
        s
    } else {
        let prev = procs_applied(s, procs.drop_last(), rolls.drop_last());
        if procs.last().chance > 0 {
            after_proc(prev, procs.last(), rolls.last())
        } else {
            prev
        }
    }
}

/// Every roll lies between 1 and 100.
pub open spec fn rolls_valid(rolls: Seq<int>) -> bool {
    forall|i: int| 0 <= i < rolls.len() ==> 1 <= #[trigger] rolls[i] <= 100
}

impl DamageArea {
    /// Applies this damage area to every enemy standing on one of its cells
    /// (see `AreaWrapper::covers`: inside the square, or on the list of a
    /// chaos area): its health drops by `damage_amount`, and
    /// where the area carries weapon stats each of their procs with a chance
    /// above 0 is tried on it.
    pub fn deal_damage(&self, enemies: &mut Vec<Enemy>)
        ensures
            dealt_by(*self, old(enemies)@, final(enemies)@),
    {
        let ghost orig = enemies@;
        let procs: Vec<Proc> = match self.weapon_stats {
            Some(ws) => ws.procs.to_vec(),
            None => Vec::new(),
        };
        let mut i: usize = 0;
        while i < enemies.len()
            invariant
                i <= enemies@.len(),
                enemies@.len() == orig.len(),
                procs@.len() <= 4,
                match self.weapon_stats {
                    Some(ws) => procs@ == proc_seq(ws.procs),
                    None => procs@.len() == 0,
                },
                forall|j: int| i <= j < orig.len() ==> same_enemy_fields(#[trigger] enemies@[j], orig[j]),
                forall|j: int| 0 <= j < i ==> dealt(#[trigger] orig[j], enemies@[j], self),
            decreases orig.len() - i,
        {
            let pos = enemies[i].position;
            if crate::coords::area_covers(&self.area, &pos) {
                let mut e = enemies.remove(i);
                let ghost e0 = e;
                e.take_damage(self.damage_amount);
                let ghost after_hit = e.debuffs@;
                let mut k: usize = 0;
                let ghost mut rolls: Seq<int> = Seq::empty();
                while k < procs.len()
                    invariant
                        k <= procs@.len(),
                        procs@.len() <= 4,
                        rolls.len() == k,
                        rolls_valid(rolls),
                        e.debuffs@ == procs_applied(after_hit, procs@.take(k as int), rolls),
                        e.health == clamp_i32(e0.health - self.damage_amount),
                        e.got_hit == (true, self.damage_amount),
                        e.entitychar == health_look(e.health as int, e0.max_health as int, false),
                        e.is_alive == (e0.is_alive && e.health > 0),
                        e.position == e0.position,
                        e.prev_position == e0.prev_position,
                        e.facing == e0.facing,
                        e.damage == e0.damage,
                        e.max_health == e0.max_health,
                        e.drops == e0.drops,
                    decreases procs@.len() - k,
                {
                    let p = procs[k];
                    let ghost before = e.debuffs@;
                    let ghost old_rolls = rolls;
                    assert(procs@.take(k + 1).drop_last() =~= procs@.take(k as int));
                    if p.chance > 0 {
                        e.try_proc(&p);
                        proof {
                            let roll = choose|roll: int|
                                1 <= roll <= 100 && e.debuffs@ == #[trigger] after_proc(before, p, roll);
                            rolls = rolls.push(roll);
                        }
                    } else {
                        proof {
                            rolls = rolls.push(1);
                        }
                    }
                    proof {
                        assert(rolls.drop_last() =~= old_rolls);
                        assert(procs@.take(k + 1).last() == p);
                    }
                    k = k + 1;
                }
                assert(procs@.take(procs@.len() as int) =~= procs@);
                proof {
                    if let Some(ws) = self.weapon_stats {
                        assert(e.debuffs@ == procs_applied(e0.debuffs@, proc_seq(ws.procs), rolls));
                    }
                }
                enemies.insert(i, e);
            }
            i = i + 1;
        }
    }
}

/// Two enemies that agree in every field.
pub open spec fn same_enemy_fields(a: Enemy, b: Enemy) -> bool {
    crate::chain::same_enemy(a, b)
}

/// `f` is `e` after the damage area dealt with it, as `deal_damage` says.
pub open spec fn dealt(e: Enemy, f: Enemy, area: &DamageArea) -> bool {
    if area.area.covers(e.position) {
        &&& f.health == clamp_i32(e.health - area.damage_amount)
        &&& f.got_hit == (true, area.damage_amount)
        &&& f.entitychar == health_look(f.health as int, e.max_health as int, false)
        &&& f.is_alive == (e.is_alive && f.health > 0)
        &&& match area.weapon_stats {
            Some(ws) => exists|rolls: Seq<int>|
                rolls.len() == proc_seq(ws.procs).len() && rolls_valid(rolls) && f.debuffs@
                    == #[trigger] procs_applied(e.debuffs@, proc_seq(ws.procs), rolls),
            None => f.debuffs@ == e.debuffs@,
        }
        &&& f.position == e.position
        &&& f.prev_position == e.prev_position
        &&& f.facing == e.facing
        &&& f.damage == e.damage
        &&& f.max_health == e.max_health
        &&& f.drops == e.drops
    } else {
        crate::chain::same_enemy(e, f)
    }
}


/// A weapon of the kind raised from level `from` to level `to` (see
/// `Weapon::upgrade_self`): unchanged where that does not raise it.
pub open spec fn weapon_upgraded(kind: WeaponKind, w: Weapon, from: int, to: int) -> Weapon {
    if to <= from {
        w
    } else {
        levels_applied(kind, Weapon { stats: WeaponStats { level: to as i32, ..w.stats }, ..w }, from, to)
    }
}

/// What the offer of the weapon's level `level` says.
pub open spec fn weapon_desc(kind: WeaponKind, level: int) -> Seq<char> {
    match kind {
        WeaponKind::Flash => if level == 1 {
            "FLASH will create a brief damaging field directly in front of you."@
        } else if level == 2 {
            "Increase size by 1, increase base damage by 1."@
        } else if level == 3 {
            "Increase base damage by 2"@
        } else if level == 4 {
            "Increase damage scalar by 25%"@
        } else if level == 5 {
            "Increase damage scalar by 75%. Imbue FLASH with Flame element, burning enemies when hit."@
        } else {
            Seq::empty()
        },
        WeaponKind::Pillar => if level == 1 {
            "PILLAR will create a damaging beam which affects an entire column of the map"@
        } else if level == 2 {
            "Increase size by 1, increase base damage by 1"@
        } else if level == 3 {
            "Increase base damage by 2"@
        } else if level == 4 {
            "Increase damage scalar by 25%"@
        } else if level == 5 {
            "Increase damage scalar by 75%"@
        } else {
            Seq::empty()
        },
        WeaponKind::Lightning => if level == 1 {
            "LIGHTNING will seek the nearest enemy and damage them."@
        } else if level == 2 {
            "Increase bounces by 1, increase base damage by 1. Imbue LIGHTNING with Shock element, giving a chance to charge enemies on hit."@
        } else if level == 3 {
            "Increase bounces by 1, increase base damage by 2"@
        } else if level == 4 {
            "Increase bounces by 1, increase damage scalar by 25%"@
        } else if level == 5 {
            "Double bounces, increase damage scalar by 75%"@
        } else {
            Seq::empty()
        },
        WeaponKind::Row => if level == 1 {
            "ROW will create a damaging beam which affects an entire row of the map."@
        } else if level == 2 {
            "Increase size by 1, increase base damage by 1."@
        } else if level == 3 {
            "Increase damage by 2."@
        } else if level == 4 {
            "Increase damage scalar by 25%"@
        } else if level == 5 {
            "Increase damage scalar by 75%"@
        } else {
            Seq::empty()
        },
    }
}

/// The highest level a weapon of the kind reaches: FLASH follows the
/// game's `max_method_level`, the others stop at 5.
pub open spec fn weapon_max_level(kind: WeaponKind, max_method_level: int) -> int {
    if kind == WeaponKind::Flash {
        max_method_level
    } else {
        5
    }
}

/// Each weapon's name is ASCII and already in upper case.
pub proof fn lemma_weapon_name_upper(kind: WeaponKind)
    ensures
        vstd::utf8::is_ascii_chars(weapon_name(kind)),
        ascii_upper(weapon_name(kind)) == weapon_name(kind),
{
    reveal_strlit("FLASH");
    reveal_strlit("PILLAR");
    reveal_strlit("LIGHTNING");
    reveal_strlit("ROW");
    assert(ascii_upper(weapon_name(kind)) =~= weapon_name(kind));
}

impl WeaponWrapper {
    /// The weapon in the slot, to change it in place.
    pub fn get_inner_mut(&mut self) -> (res: &mut Weapon)
        requires
            inner_of(*old(self)) is Some,
        ensures
            *res == inner_of(*old(self)).unwrap(),
            *final(self) == wrap(kind_of(*old(self)), Some(*final(res))),
    {
        match self {
            WeaponWrapper::Flash(w) => w.as_mut().unwrap(),
            WeaponWrapper::Pillar(w) => w.as_mut().unwrap(),
            WeaponWrapper::Lightning(w) => w.as_mut().unwrap(),
            WeaponWrapper::Row(w) => w.as_mut().unwrap(),
        }
    }

}

impl Poweruppable for WeaponWrapper {
    open spec fn filled(&self) -> bool {
        inner_of(*self) is Some
    }

    open spec fn level_spec(&self) -> int {
        inner_of(*self).unwrap().stats.level as int
    }

    open spec fn max_level_spec(&self, m: int) -> int {
        weapon_max_level(kind_of(*self), m)
    }

    open spec fn room_to_rise(&self, from: int, to: int) -> bool {
        levels_fit(kind_of(*self), inner_of(*self).unwrap(), from, to)
    }

    /// The weapon's name, as an offer shows it.
    fn get_name(&self) -> (res: String)
        ensures
            res@ == weapon_name(kind_of(*self)),
    {
        self.name().to_owned()
    }

    /// Weapons are offered as weapon power-ups.
    fn get_powerup_type(&self) -> (res: PowerupTypes)
        ensures
            res == PowerupTypes::Weapon,
    {
        PowerupTypes::Weapon
    }

    /// What the offer of level `level` says; empty outside levels 1 to 5.
    fn upgrade_desc(&self, level: i32) -> (res: String)
        ensures
            res@ == weapon_desc(kind_of(*self), level as int),
    {
        let text: &str = match self {
            WeaponWrapper::Flash(_) => if level == 1 {
                "FLASH will create a brief damaging field directly in front of you."
            } else if level == 2 {
                "Increase size by 1, increase base damage by 1."
            } else if level == 3 {
                "Increase base damage by 2"
            } else if level == 4 {
                "Increase damage scalar by 25%"
            } else if level == 5 {
                "Increase damage scalar by 75%. Imbue FLASH with Flame element, burning enemies when hit."
            } else {
                return String::new();
            },
            WeaponWrapper::Pillar(_) => if level == 1 {
                "PILLAR will create a damaging beam which affects an entire column of the map"
            } else if level == 2 {
                "Increase size by 1, increase base damage by 1"
            } else if level == 3 {
                "Increase base damage by 2"
            } else if level == 4 {
                "Increase damage scalar by 25%"
            } else if level == 5 {
                "Increase damage scalar by 75%"
            } else {
                return String::new();
            },
            WeaponWrapper::Lightning(_) => if level == 1 {
                "LIGHTNING will seek the nearest enemy and damage them."
            } else if level == 2 {
                "Increase bounces by 1, increase base damage by 1. Imbue LIGHTNING with Shock element, giving a chance to charge enemies on hit."
            } else if level == 3 {
                "Increase bounces by 1, increase base damage by 2"
            } else if level == 4 {
                "Increase bounces by 1, increase damage scalar by 25%"
            } else if level == 5 {
                "Double bounces, increase damage scalar by 75%"
            } else {
                return String::new();
            },
            WeaponWrapper::Row(_) => if level == 1 {
                "ROW will create a damaging beam which affects an entire row of the map."
            } else if level == 2 {
                "Increase size by 1, increase base damage by 1."
            } else if level == 3 {
                "Increase damage by 2."
            } else if level == 4 {
                "Increase damage scalar by 25%"
            } else if level == 5 {
                "Increase damage scalar by 75%"
            } else {
                return String::new();
            },
        };
        text.to_owned()
    }

    /// The highest level the weapon reaches (see `weapon_max_level`).
    fn get_max_level(&self, max_method_level: i32) -> (res: i32)
        ensures
            res == weapon_max_level(kind_of(*self), max_method_level as int),
    {
        match self {
            WeaponWrapper::Flash(_) => max_method_level,
            _ => 5,
        }
    }

    /// The level of the weapon in the slot.
    fn get_level(&self) -> (res: i32)
        ensures
            res == inner_of(*self).unwrap().stats.level,
    {
        self.get_inner().get_level()
    }

    /// The offer to raise the weapon by `levels_up` levels, or `None` once
    /// it has reached its highest level.
    fn get_next_upgrade(&self, levels_up: i32, max_method_level: i32) -> (res: Option<
        PowerupUpgrade,
    >)
        ensures
            ({
                let level = inner_of(*self).unwrap().stats.level as int;
                let kind = kind_of(*self);
                if level >= weapon_max_level(kind, max_method_level as int) {
                    res is None
                } else {
                    res matches Some(p) && {
                        &&& p.name@ == uppercase_of(weapon_name(kind))
                        &&& p.name@ == weapon_name(kind)
                        &&& p.desc@ == weapon_desc(kind, level + levels_up)
                        &&& p.curr_level == level
                        &&& p.new_level == level + levels_up
                        &&& p.powerup_type == PowerupTypes::Weapon
                    }
                }
            }),
    {
        let level = self.get_level();
        if level >= self.get_max_level(max_method_level) {
            None
        } else {
            let new_level = level + levels_up;
            let name = self.get_name();
            proof {
                lemma_weapon_name_upper(kind_of(*self));
            }
            Some(
                PowerupUpgrade::new(
                    name.as_str(),
                    self.upgrade_desc(new_level),
                    level,
                    new_level,
                    self.get_powerup_type(),
                ),
            )
        }
    }

    /// Raises the weapon in the slot as the offer says (see
    /// `Weapon::upgrade_self` and `weapon_upgraded`).
    fn upgrade_self(&mut self, powerup: &PowerupUpgrade)
        ensures
            kind_of(*final(self)) == kind_of(*old(self)),
            inner_of(*final(self)) == Some(
                weapon_upgraded(
                    kind_of(*old(self)),
                    inner_of(*old(self)).unwrap(),
                    powerup.curr_level as int,
                    powerup.new_level as int,
                ),
            ),
    {
        let kind = self.kind();
        let mut w = *self.get_inner();
        w.upgrade_self(kind, powerup);
        self.set_inner(w);
    }
}

/// `after` is the enemies `before` once the area has been dealt to them
/// (see `DamageArea::deal_damage`).
pub open spec fn dealt_by(area: DamageArea, before: Seq<Enemy>, after: Seq<Enemy>) -> bool {
    &&& after.len() == before.len()
    &&& forall|i: int| 0 <= i < before.len() ==> {
        let e = #[trigger] before[i];
        let f = after[i];
        if area.area.covers(e.position) {
            &&& f.health == clamp_i32(e.health - area.damage_amount)
            &&& f.got_hit == (true, area.damage_amount)
            &&& f.entitychar == health_look(f.health as int, e.max_health as int, false)
            &&& f.is_alive == (e.is_alive && f.health > 0)
            &&& match area.weapon_stats {
                Some(ws) => exists|rolls: Seq<int>|
                    rolls.len() == proc_seq(ws.procs).len() && rolls_valid(rolls) && f.debuffs@
                        == #[trigger] procs_applied(e.debuffs@, proc_seq(ws.procs), rolls),
                None => f.debuffs@ == e.debuffs@,
            }
            &&& f.position == e.position
            &&& f.prev_position == e.prev_position
            &&& f.facing == e.facing
            &&& f.damage == e.damage
            &&& f.max_health == e.max_health
            &&& f.drops == e.drops
        } else {
            &&& f.health == e.health
            &&& f.got_hit == e.got_hit
            &&& f.entitychar == e.entitychar
            &&& f.is_alive == e.is_alive
            &&& f.debuffs@ == e.debuffs@
            &&& f.position == e.position
            &&& f.prev_position == e.prev_position
            &&& f.facing == e.facing
            &&& f.damage == e.damage
            &&& f.max_health == e.max_health
            &&& f.drops == e.drops
        }
    }
}

/// `states` runs through the enemies as each area is dealt in turn: it
/// starts before the first and ends after the last.
pub open spec fn dealt_through(areas: Seq<DamageArea>, states: Seq<Seq<Enemy>>) -> bool {
    &&& states.len() == areas.len() + 1
    &&& forall|i: int| 0 <= i < areas.len() ==> dealt_by(#[trigger] areas[i], states[i], states[i + 1])
}

/// `after` is the enemies `before` once each area has been dealt to them in
/// turn.
pub open spec fn dealt_seq(areas: Seq<DamageArea>, before: Seq<Enemy>, after: Seq<Enemy>) -> bool {
    exists|states: Seq<Seq<Enemy>>|
        #[trigger] dealt_through(areas, states) && states[0] == before && states.last() == after
}

} // verus!
