//! What debuffs do to the enemies that carry them: on each tick, when the
//! enemy is damaged and when it dies.
use vstd::prelude::*;
use crate::chain::{all_on_map, on_map, same_enemy, shock_chain, shock_path, all_alive};
use crate::coords::{AreaWrapper, ChaosArea, Position, SquareArea, constrained_pos};
use crate::debuffs::{Debuff, DebuffStats, DebuffTypes, Proc};
use crate::effects::DamageArea;
use crate::enemy::{Enemy, hit_by, saturating_add_i32, saturating_mul_i32, saturating_sub_i32};
use crate::entities::{Color, EntityCharacters, Style, plain_style};
use crate::map::{Layer, layer_valid};
use crate::stats::{Procs, WeaponStats, default_weapon_stats, empty_procs};
use crate::upgrades::clamp_i32;
use crate::utils::TICK_RATE;

verus! {

/// The square reaching `size` cells around `p` in each direction (corners
/// moved with saturating arithmetic), held to the layer.
pub open spec fn blast_square(p: Position, size: i32, layer: &Layer) -> SquareArea {
    SquareArea {
        corner1: constrained_pos(
            Position(clamp_i32(p.0 - size) as i32, clamp_i32(p.1 - size) as i32),
            layer,
        ),
        corner2: constrained_pos(
            Position(clamp_i32(p.0 + size) as i32, clamp_i32(p.1 + size) as i32),
            layer,
        ),
    }
}

/// A style with only a foreground colour.
pub open spec fn colored(c: Color) -> Style {
    Style { fg: Some(c), ..plain_style() }
}

/// Weapon stats that carry a single proc and are otherwise the defaults.
pub open spec fn stats_with_procs(procs: Procs) -> WeaponStats {
    WeaponStats { procs, ..default_weapon_stats() }
}

/// The burn an ignition spreads: a sure-to-land-in-80 burn whose damage is
/// three times the ignition's (1 where it has none), held to `i32`.
pub open spec fn spread_burn(stats: DebuffStats) -> Proc {
    Proc {
        chance: 80,
        debuff: Debuff {
            debuff_type: DebuffTypes::FlameBurn,
            stats: DebuffStats {
                damage: Some(
                    clamp_i32(
                        3 * match stats.damage {
                            Some(d) => d as int,
                            None => 1,
                        },
                    ) as i32,
                ),
                ..stats
            },
            complete: false,
        },
    }
}

/// The electrocution a shock charge leaves on the enemies its bolt hits.
pub open spec fn electrocute_proc(size: Option<i32>) -> Proc {
    Proc {
        chance: 100,
        debuff: Debuff {
            debuff_type: DebuffTypes::ShockElectrocute,
            stats: DebuffStats {
                size,
                damage: None,
                misc_value: None,
                on_death_effect: false,
                on_tick_effect: true,
                on_damage_effect: false,
            },
            complete: false,
        },
    }
}

/// Whether an electrocution of size `size` wears off at tick `tick`: every
/// `TICK_RATE * size` ticks, or only at tick 0 where that is not positive.
pub open spec fn electrocute_ends(size: i32, tick: u64) -> bool {
    let m: int = if size <= 0 { 0 } else { TICK_RATE * size };
    if m == 0 {
        tick == 0
    } else {
        (tick as int) % m == 0
    }
}

/// Whether a position differs from `p`.
pub open spec fn other_than(p: Position) -> spec_fn(Position) -> bool {
    |q: Position| q != p
}

/// A position held inside the layer.
pub open spec fn held_to(layer: &Layer) -> spec_fn(Position) -> Position {
    |q: Position| constrained_pos(q, layer)
}

/// The positions of a shock charge's bolt: the path of `shock_chain` from
/// the charged enemy over all enemies, `size` times (once where the charge
/// has no size), leaving out the enemy's own cell, each held to the layer.
pub open spec fn charge_positions(
    begin: Position,
    enemies: Seq<Enemy>,
    size: Option<i32>,
    layer: &Layer,
) -> Seq<Position> {
    let k = match size {
        Some(s) => s,
        None => 1,
    };
    let path = shock_chain(
        enemies,
        all_alive(enemies.len()),
        begin,
        (if k > 0 { k as int } else { 0 }) as nat,
    );
    path.filter(other_than(begin)).map_values(held_to(layer))
}

/// The positions of `v` other than `p`, in order.
fn without_position(v: &Vec<Position>, p: Position) -> (res: Vec<Position>)
    ensures
        res@ == v@.filter(other_than(p)),
{
    let mut res: Vec<Position> = Vec::new();
    let mut i: usize = 0;
    while i < v.len()
        invariant
            i <= v@.len(),
            res@ == v@.take(i as int).filter(other_than(p)),
        decreases v@.len() - i,
    {
        proof {
            reveal_with_fuel(Seq::filter, 1);
            assert(v@.take(i + 1).drop_last() =~= v@.take(i as int));
        }
        if v[i] != p {
            res.push(v[i]);
        }
        i = i + 1;
    }
    assert(v@.take(i as int) =~= v@);
    res
}

/// The debuffs of `v` other than flame burns, in order.
fn without_burns(v: &Vec<Debuff>) -> (res: Vec<Debuff>)
    ensures
        res@ == v@.filter(|d: Debuff| d.debuff_type != DebuffTypes::FlameBurn),
{
    let mut res: Vec<Debuff> = Vec::new();
    let mut i: usize = 0;
    while i < v.len()
        invariant
            i <= v@.len(),
            res@ == v@.take(i as int).filter(|d: Debuff| d.debuff_type != DebuffTypes::FlameBurn),
        decreases v@.len() - i,
    {
        proof {
            reveal_with_fuel(Seq::filter, 1);
            assert(v@.take(i + 1).drop_last() =~= v@.take(i as int));
        }
        if v[i].debuff_type != DebuffTypes::FlameBurn {
            res.push(v[i]);
        }
        i = i + 1;
    }
    assert(v@.take(i as int) =~= v@);
    res
}

/// The square of `blast_square`.
fn blast(p: Position, size: i32, layer: &Layer) -> (res: SquareArea)
    requires
        layer_valid(layer),
    ensures
        res == blast_square(p, size, layer),
{
    let mut area = SquareArea {
        corner1: Position(saturating_sub_i32(p.0, size), saturating_sub_i32(p.1, size)),
        corner2: Position(saturating_add_i32(p.0, size), saturating_add_i32(p.1, size)),
    };
    area.constrain(layer);
    area
}

impl Debuff {
    /// What the debuff does when its enemy dies: a mark for explosion with
    /// a size blows up the square around the enemy (see `blast_square`),
    /// dealing the mark's damage (0 where it has none); any other debuff
    /// does nothing.
    pub fn on_death(&self, enemy: &Enemy, layer: &Layer) -> (res: Option<DamageArea>)
        requires
            layer_valid(layer),
        ensures
            match (self.debuff_type, self.stats.size) {
                (DebuffTypes::MarkedForExplosion, Some(size)) => res matches Some(a) && {
                    &&& a.damage_amount == match self.stats.damage {
                        Some(d) => d,
                        None => 0,
                    }
                    &&& a.area == AreaWrapper::Square(blast_square(enemy.position, size, layer))
                    &&& a.entity == EntityCharacters::AttackMist(colored(Color::DarkGray))
                    &&& a.duration == 150
                    &&& !a.blink
                    &&& a.weapon_stats is None
                },
                _ => res is None,
            },
    {
        match self.debuff_type {
            DebuffTypes::MarkedForExplosion => {
                match self.stats.size {
                    Some(size) => {
                        let area = blast(enemy.position, size, layer);
                        let damage_amount = match self.stats.damage {
                            Some(d) => d,
                            None => 0,
                        };
                        Some(
                            DamageArea {
                                damage_amount,
                                area: AreaWrapper::Square(area),
                                entity: EntityCharacters::AttackMist(Style::new().fg(Color::DarkGray)),
                                duration: 150,
                                blink: false,
                                weapon_stats: None,
                            },
                        )
                    },
                    None => None,
                }
            },
            _ => None,
        }
    }

    /// What the debuff does on tick `tickcount`; a complete debuff does
    /// nothing.
    /// - A burn, on every `TICK_RATE`-th tick, deals its damage (if any) to
    ///   the enemy.
    /// - An ignition with a size, on every sixth tick, completes, clears the
    ///   enemy's burns and blows up the square around it (see
    ///   `blast_square`) for ten times its damage, spreading the burn of
    ///   `spread_burn` (both held to `i32`).
    /// - An electrocution completes on the ticks of `electrocute_ends`.
    /// - Anything else does nothing.
    pub fn on_tick(&mut self, enemy: &mut Enemy, layer: &Layer, tickcount: u64) -> (res: Option<DamageArea>)
        requires
            layer_valid(layer),
            !old(self).complete && old(self).debuff_type == DebuffTypes::ShockElectrocute
                ==> old(self).stats.size is Some,
            !old(self).complete && old(self).debuff_type == DebuffTypes::FlameIgnite && tickcount % 6 == 0
                && old(self).stats.size is Some ==> old(self).stats.damage is Some,
        ensures
            ({
                let d = *old(self);
                let e = *old(enemy);
                if d.complete {
                    &&& res is None
                    &&& *final(self) == d
                    &&& same_enemy(*final(enemy), e)
                } else {
                    match d.debuff_type {
                        DebuffTypes::FlameBurn => {
                            &&& res is None
                            &&& *final(self) == d
                            &&& if tickcount % TICK_RATE == 0 && d.stats.damage is Some {
                                hit_by(e, *final(enemy), d.stats.damage.unwrap())
                            } else {
                                same_enemy(*final(enemy), e)
                            }
                        },
                        DebuffTypes::FlameIgnite => if tickcount % 6 == 0 && d.stats.size is Some {
                            &&& *final(self) == (Debuff { complete: true, ..d })
                            &&& final(enemy).debuffs@ == e.debuffs@.filter(
                                |x: Debuff| x.debuff_type != DebuffTypes::FlameBurn,
                            )
                            &&& same_enemy(*final(enemy), Enemy { debuffs: final(enemy).debuffs, ..e })
                            &&& res matches Some(a) && {
                                &&& a.damage_amount == clamp_i32(10 * d.stats.damage.unwrap())
                                &&& a.area == AreaWrapper::Square(
                                    blast_square(e.position, d.stats.size.unwrap(), layer),
                                )
                                &&& a.entity == EntityCharacters::AttackMist(colored(Color::Red))
                                &&& a.duration == 50
                                &&& !a.blink
                                &&& a.weapon_stats == Some(
                                    stats_with_procs(
                                        Procs { burn: Some(spread_burn(d.stats)), ..empty_procs() },
                                    ),
                                )
                            }
                        } else {
                            &&& res is None
                            &&& *final(self) == d
                            &&& same_enemy(*final(enemy), e)
                        },
                        DebuffTypes::ShockElectrocute => {
                            &&& res is None
                            &&& *final(self) == (Debuff {
                                complete: electrocute_ends(d.stats.size.unwrap(), tickcount),
                                ..d
                            })
                            &&& same_enemy(*final(enemy), e)
                        },
                        _ => {
                            &&& res is None
                            &&& *final(self) == d
                            &&& same_enemy(*final(enemy), e)
                        },
                    }
                }
            }),
    {
        if self.complete {
            return None;
        }
        match self.debuff_type {
            DebuffTypes::FlameBurn => {
                if tickcount % TICK_RATE != 0 {
                    return None;
                }
                if let Some(damage) = self.stats.damage {
                    enemy.take_damage(damage);
                }
                None
            },
            DebuffTypes::FlameIgnite => {
                if tickcount % 6 != 0 {
                    return None;
                }
                match self.stats.size {
                    Some(size) => {
                        let area = blast(enemy.position, size, layer);
                        self.complete = true;
                        let base = match self.stats.damage {
                            Some(d) => d,
                            None => 1,
                        };
                        let proc = Proc {
                            chance: 80,
                            debuff: Debuff {
                                debuff_type: DebuffTypes::FlameBurn,
                                stats: DebuffStats {
                                    damage: Some(saturating_mul_i32(base, 3)),
                                    ..self.stats
                                },
                                complete: false,
                            },
                        };
                        let mut procs = Procs::new();
                        procs.burn = Some(proc);
                        let kept = without_burns(&enemy.debuffs);
                        enemy.debuffs = kept;
                        let damage = self.stats.damage.unwrap();
                        let mut weapon_stats = WeaponStats::default();
                        weapon_stats.procs = procs;
                        Some(
                            DamageArea {
                                damage_amount: saturating_mul_i32(damage, 10),
                                area: AreaWrapper::Square(area),
                                entity: EntityCharacters::AttackMist(Style::new().fg(Color::Red)),
                                duration: 50,
                                blink: false,
                                weapon_stats: Some(weapon_stats),
                            },
                        )
                    },
                    None => None,
                }
            },
            DebuffTypes::ShockElectrocute => {
                let size = self.stats.size.unwrap();
                let m: u64 = if size <= 0 {
                    0
                } else {
                    TICK_RATE * (size as u64)
                };
                let ends = if m == 0 {
                    tickcount == 0
                } else {
                    tickcount % m == 0
                };
                if ends {
                    self.complete = true;
                }
                None
            },
            _ => None,
        }
    }

    /// What the debuff does once its enemy has been hit; nothing where the
    /// enemy was not hit since its last discharge or the debuff is
    /// complete. A shock charge completes, clears the enemy's hit and sends
    /// a bolt along `charge_positions`, dealing the damage of the hit and
    /// leaving the electrocution of `electrocute_proc`; anything else does
    /// nothing. Only the bolt measures distances, so only it needs the
    /// positions on the map (see `on_map`).
    pub fn on_damage(&mut self, enemy: &mut Enemy, layer: &Layer, enemies: &Vec<Enemy>) -> (res: Option<
        DamageArea,
    >)
        requires
            layer_valid(layer),
            old(enemy).got_hit.0 && !old(self).complete && old(self).debuff_type == DebuffTypes::ShockCharge
                ==> all_on_map(enemies@) && on_map(old(enemy).position),
        ensures
            ({
                let d = *old(self);
                let e = *old(enemy);
                if !e.got_hit.0 || d.complete || d.debuff_type != DebuffTypes::ShockCharge {
                    &&& res is None
                    &&& *final(self) == d
                    &&& same_enemy(*final(enemy), e)
                } else {
                    &&& *final(self) == (Debuff { complete: true, ..d })
                    &&& same_enemy(*final(enemy), Enemy { got_hit: (false, 0i32), ..e })
                    &&& res matches Some(a) && {
                        &&& a.damage_amount == e.got_hit.1
                        &&& a.area matches AreaWrapper::Chaos(c) && c.position_list@ == charge_positions(
                            e.position,
                            enemies@,
                            d.stats.size,
                            layer,
                        )
                        &&& a.entity == EntityCharacters::AttackMist(colored(Color::LightYellow))
                        &&& a.duration == 10
                        &&& !a.blink
                        &&& a.weapon_stats == Some(
                            stats_with_procs(
                                Procs { electrocute: Some(electrocute_proc(d.stats.size)), ..empty_procs() },
                            ),
                        )
                    }
                }
            }),
    {
        if !enemy.got_hit.0 || self.complete {
            return None;
        }
        match self.debuff_type {
            DebuffTypes::ShockCharge => {
                let begin = enemy.position;
                let size = match self.stats.size {
                    Some(s) => s,
                    None => 1,
                };
                let path = shock_path(enemies, begin, size);
                let positions = without_position(&path, begin);
                let mut area = ChaosArea::new(positions);
                let proc = Proc {
                    chance: 100,
                    debuff: Debuff {
                        debuff_type: DebuffTypes::ShockElectrocute,
                        stats: DebuffStats {
                            size: self.stats.size,
                            damage: None,
                            on_death_effect: false,
                            on_damage_effect: false,
                            on_tick_effect: true,
                            misc_value: None,
                        },
                        complete: false,
                    },
                };
                let mut procs = Procs::new();
                procs.electrocute = Some(proc);
                area.constrain(layer);
                proof {
                    let filtered = path@.filter(other_than(begin));
                    assert(area.position_list@ =~= filtered.map_values(held_to(layer)));
                }
                let mut weapon_stats = WeaponStats::default();
                weapon_stats.procs = procs;
                let out = Some(
                    DamageArea {
                        damage_amount: enemy.got_hit.1,
                        area: AreaWrapper::Chaos(area),
                        entity: EntityCharacters::AttackMist(Style::new().fg(Color::LightYellow)),
                        duration: 10,
                        blink: false,
                        weapon_stats: Some(weapon_stats),
                    },
                );
                enemy.got_hit = (false, 0);
                self.complete = true;
                out
            },
            _ => None,
        }
    }
}

} // verus!
