//! Debuffs that weapons and effects put on enemies, and the elements that
//! weapons are imbued with.
use vstd::prelude::*;

verus! {

/// The elements a weapon can be imbued with; each carries its honage, in
/// thousandths.
#[derive(Clone, Copy, Debug, PartialEq, Eq, Structural)]
pub enum Elements {
    Flame(u64),
    Shock(u64),
}

impl Elements {
    /// The honage the element carries, in thousandths.
    pub fn get_honage(&self) -> (res: u64)
        ensures
            res == match *self {
                Elements::Flame(h) => h,
                Elements::Shock(h) => h,
            },
    {
        match self {
            Elements::Flame(honage) => *honage,
            Elements::Shock(honage) => *honage,
        }
    }
}

/// Represents debuffs that can be applied to enemies.
#[derive(Clone, Copy, Debug, PartialEq, Eq, Structural)]
pub enum DebuffTypes {
    MarkedForExplosion,
    FlameBurn,
    FlameIgnite,
    ShockCharge,
    ShockElectrocute,
}

/// The numbers a debuff works with and the moments it acts at.
#[derive(Clone, Copy, Debug, PartialEq, Eq, Structural)]
pub struct DebuffStats {
    pub size: Option<i32>,
    pub damage: Option<i32>,
    pub misc_value: Option<u32>,
    pub on_death_effect: bool,
    pub on_tick_effect: bool,
    pub on_damage_effect: bool,
}

/// A debuff on an enemy; `complete` once it has done its work.
#[derive(Clone, Copy, Debug, PartialEq, Eq, Structural)]
pub struct Debuff {
    pub debuff_type: DebuffTypes,
    pub stats: DebuffStats,
    pub complete: bool,
}

/// A chance, between 0 and 100, of putting a debuff on an enemy that is hit.
#[derive(Clone, Copy, Debug, PartialEq, Eq, Structural)]
pub struct Proc {
    pub chance: u32,
    pub debuff: Debuff,
}

/// The debuffs of a list that act when the enemy dies, in list order.
pub open spec fn on_death_effects(s: Seq<Debuff>) -> Seq<Debuff> {
    s.filter(|d: Debuff| d.stats.on_death_effect)
}

/// The debuffs of a list that act on each tick, in list order.
pub open spec fn on_tick_effects(s: Seq<Debuff>) -> Seq<Debuff> {
    s.filter(|d: Debuff| d.stats.on_tick_effect)
}

/// The debuffs of a list that act when the enemy is damaged, in list order.
pub open spec fn on_damage_effects(s: Seq<Debuff>) -> Seq<Debuff> {
    s.filter(|d: Debuff| d.stats.on_damage_effect)
}

/// The debuffs of an enemy.
pub type Debuffs = Vec<Debuff>;

/// Picks out the debuffs that act at each moment.
pub trait GetDebuffTypes {
    /// The debuffs held, in order.
    spec fn debuff_seq(&self) -> Seq<Debuff>;

    /// The debuffs that act when the enemy dies.
    fn get_on_death_effects(&self) -> (res: Vec<Debuff>)
        ensures
            res@ == on_death_effects(self.debuff_seq()),
    ;

    /// The debuffs that act on each tick.
    fn get_on_tick_effects(&self) -> (res: Vec<Debuff>)
        ensures
            res@ == on_tick_effects(self.debuff_seq()),
    ;

    /// The debuffs that act when the enemy is damaged.
    fn get_on_damage_effects(&self) -> (res: Vec<Debuff>)
        ensures
            res@ == on_damage_effects(self.debuff_seq()),
    ;
}

impl GetDebuffTypes for Debuffs {
    open spec fn debuff_seq(&self) -> Seq<Debuff> {
        self@
    }

    fn get_on_death_effects(&self) -> (res: Vec<Debuff>) {
        death_effects_of(self)
    }

    fn get_on_tick_effects(&self) -> (res: Vec<Debuff>) {
        tick_effects_of(self)
    }

    fn get_on_damage_effects(&self) -> (res: Vec<Debuff>) {
        damage_effects_of(self)
    }
}

/// The debuffs of `debuffs` that act when the enemy dies.
fn death_effects_of(debuffs: &Vec<Debuff>) -> (res: Vec<Debuff>)
    ensures
        res@ == on_death_effects(debuffs@),
{
    let mut res: Vec<Debuff> = Vec::new();
    let mut i: usize = 0;
    while i < debuffs.len()
        invariant
            i <= debuffs@.len(),
            res@ == on_death_effects(debuffs@.take(i as int)),
        decreases debuffs@.len() - i,
    {
        proof {
            reveal_with_fuel(Seq::filter, 1);
            assert(debuffs@.take(i + 1).drop_last() =~= debuffs@.take(i as int));
        }
        if debuffs[i].stats.on_death_effect {
            res.push(debuffs[i]);
        }
        i = i + 1;
    }
    assert(debuffs@.take(i as int) =~= debuffs@);
    res
}

/// The debuffs of `debuffs` that act on each tick.
fn tick_effects_of(debuffs: &Vec<Debuff>) -> (res: Vec<Debuff>)
    ensures
        res@ == on_tick_effects(debuffs@),
{
    let mut res: Vec<Debuff> = Vec::new();
    let mut i: usize = 0;
    while i < debuffs.len()
        invariant
            i <= debuffs@.len(),
            res@ == on_tick_effects(debuffs@.take(i as int)),
        decreases debuffs@.len() - i,
    {
        proof {
            reveal_with_fuel(Seq::filter, 1);
            assert(debuffs@.take(i + 1).drop_last() =~= debuffs@.take(i as int));
        }
        if debuffs[i].stats.on_tick_effect {
            res.push(debuffs[i]);
        }
        i = i + 1;
    }
    assert(debuffs@.take(i as int) =~= debuffs@);
    res
}

/// The debuffs of `debuffs` that act when the enemy is damaged.
fn damage_effects_of(debuffs: &Vec<Debuff>) -> (res: Vec<Debuff>)
    ensures
        res@ == on_damage_effects(debuffs@),
{
    let mut res: Vec<Debuff> = Vec::new();
    let mut i: usize = 0;
    while i < debuffs.len()
        invariant
            i <= debuffs@.len(),
            res@ == on_damage_effects(debuffs@.take(i as int)),
        decreases debuffs@.len() - i,
    {
        proof {
            reveal_with_fuel(Seq::filter, 1);
            assert(debuffs@.take(i + 1).drop_last() =~= debuffs@.take(i as int));
        }
        if debuffs[i].stats.on_damage_effect {
            res.push(debuffs[i]);
        }
        i = i + 1;
    }
    assert(debuffs@.take(i as int) =~= debuffs@);
    res
}

} // verus!
