//! The player's inventory and the stats that upgrades and charms shape.
//! Multipliers are whole numbers of thousandths: 1000 stands for 1.0.
use vstd::prelude::*;
use crate::debuffs::Proc;

verus! {

/// Represents the player's inventory.
#[derive(Clone, Copy, Debug, PartialEq, Eq, Structural)]
pub struct Inventory {
    /// The amount of gold the player has.
    pub gold: u128,
}

/// `a - b`, held at 0.
pub open spec fn saturating_sub(a: int, b: int) -> int {
    if a >= b { a - b } else { 0 }
}

/// `a + b`, held at `u128::MAX`.
pub open spec fn saturating_add_u128(a: int, b: int) -> int {
    if a + b > u128::MAX { u128::MAX as int } else { a + b }
}

impl Inventory {
    /// An empty inventory.
    pub fn new() -> (res: Inventory)
        ensures
            res.gold == 0,
    {
        Inventory { gold: 0 }
    }

    /// Adds a specified amount of gold to the player's inventory, held at
    /// `u128::MAX`.
    pub fn add_gold(&mut self, amount: u128)
        ensures
            final(self).gold == saturating_add_u128(old(self).gold as int, amount as int),
    {
        self.gold = self.gold.saturating_add(amount);
    }

    /// The gold of `self` less that of `other`, held at 0.
    pub fn sub(self, other: Inventory) -> (res: Inventory)
        ensures
            res.gold == saturating_sub(self.gold as int, other.gold as int),
    {
        Inventory { gold: self.gold.saturating_sub(other.gold) }
    }
}

impl Default for Inventory {
    fn default() -> (res: Inventory)
        ensures
            res.gold == 0,
    {
        Inventory::new()
    }
}

/// Stats of the run as a whole.
#[derive(Clone, Copy, Debug, PartialEq, Eq, Structural)]
pub struct GameStats {
    /// In thousandths.
    pub enemy_spawn_mult: u64,
    /// In thousandths.
    pub enemy_move_mult: u64,
    /// In thousandths.
    pub attack_speed_mult: u64,
    /// In thousandths.
    pub gold_mult: u64,
    pub width: usize,
    pub height: usize,
    /// The length of a run, in seconds.
    pub timer: u64,
    /// How far ahead the difficulty starts, in seconds.
    pub time_offset: u64,
    /// How far the difficulty is pushed, in thousandths.
    pub doom_offset: u64,
    pub max_charm_level: i32,
    pub max_method_level: i32,
}

/// The game stats when no upgrade applies.
pub open spec fn default_game_stats() -> GameStats {
    GameStats {
        enemy_spawn_mult: 1000,
        enemy_move_mult: 1000,
        attack_speed_mult: 1000,
        gold_mult: 1000,
        width: 20,
        height: 6,
        timer: 60,
        time_offset: 0,
        doom_offset: 0,
        max_charm_level: 5,
        max_method_level: 5,
    }
}

impl Default for GameStats {
    /// Baseline game-level modifiers used when no upgrades are applied.
    fn default() -> (res: GameStats)
        ensures
            res == default_game_stats(),
    {
        GameStats {
            enemy_spawn_mult: 1000,
            enemy_move_mult: 1000,
            attack_speed_mult: 1000,
            gold_mult: 1000,
            width: 20,
            height: 6,
            timer: 60,
            time_offset: 0,
            doom_offset: 0,
            max_charm_level: 5,
            max_method_level: 5,
        }
    }
}

/// Stats of the player's character.
#[derive(Clone, Copy, Debug, PartialEq, Eq, Structural)]
pub struct PlayerStats {
    pub base_health: i32,
    /// In thousandths.
    pub health_mult: u128,
    pub health: i32,
    /// In thousandths.
    pub damage_mult: u64,
    pub shove_amount: u32,
    pub shove_damage: u32,
    /// In thousandths.
    pub movement_speed_mult: u64,
}

/// The player stats when no upgrade applies.
pub open spec fn default_player_stats() -> PlayerStats {
    PlayerStats {
        base_health: 10,
        health_mult: 1000,
        health: 10,
        damage_mult: 1000,
        shove_amount: 0,
        shove_damage: 0,
        movement_speed_mult: 1000,
    }
}

impl Default for PlayerStats {
    /// Constructs a `PlayerStats` with baseline health, damage, movement,
    /// and shove defaults.
    fn default() -> (res: PlayerStats)
        ensures
            res == default_player_stats(),
    {
        PlayerStats {
            base_health: 10,
            health_mult: 1000,
            health: 10,
            damage_mult: 1000,
            shove_amount: 0,
            shove_damage: 0,
            movement_speed_mult: 1000,
        }
    }
}

/// The procs a weapon carries, one slot for each name they go by.
#[derive(Clone, Copy, Debug, PartialEq, Eq, Structural)]
pub struct Procs {
    pub mark: Option<Proc>,
    pub burn: Option<Proc>,
    pub charge: Option<Proc>,
    pub electrocute: Option<Proc>,
}

/// The procs of a table, in the order they are tried.
pub open spec fn proc_seq(p: Procs) -> Seq<Proc> {
    let s0 = Seq::<Proc>::empty();
    let s1 = match p.mark { Some(x) => s0.push(x), None => s0 };
    let s2 = match p.burn { Some(x) => s1.push(x), None => s1 };
    let s3 = match p.charge { Some(x) => s2.push(x), None => s2 };
    match p.electrocute { Some(x) => s3.push(x), None => s3 }
}

impl Procs {
    /// A table with no proc.
    pub fn new() -> (res: Procs)
        ensures
            res == empty_procs(),
    {
        Procs { mark: None, burn: None, charge: None, electrocute: None }
    }

    /// Whether the table holds no proc.
    pub fn is_empty(&self) -> (res: bool)
        ensures
            res <==> proc_seq(*self).len() == 0,
    {
        self.mark.is_none() && self.burn.is_none() && self.charge.is_none()
            && self.electrocute.is_none()
    }

    /// The procs held, in the order they are tried: mark, burn, charge,
    /// electrocute.
    pub fn to_vec(&self) -> (res: Vec<Proc>)
        ensures
            res@ == proc_seq(*self),
    {
        let mut v: Vec<Proc> = Vec::new();
        if let Some(x) = self.mark {
            v.push(x);
        }
        if let Some(x) = self.burn {
            v.push(x);
        }
        if let Some(x) = self.charge {
            v.push(x);
        }
        if let Some(x) = self.electrocute {
            v.push(x);
        }
        v
    }
}

/// A table with no proc.
pub open spec fn empty_procs() -> Procs {
    Procs { mark: None, burn: None, charge: None, electrocute: None }
}

/// Stats that weapons start from.
#[derive(Clone, Copy, Debug, PartialEq, Eq, Structural)]
pub struct WeaponStats {
    pub damage_flat_boost: i32,
    pub procs: Procs,
    pub size: i32,
    pub level: i32,
    /// In thousandths.
    pub elemental_honage: u64,
}

/// The weapon stats when no upgrade applies.
pub open spec fn default_weapon_stats() -> WeaponStats {
    WeaponStats {
        damage_flat_boost: 0,
        procs: empty_procs(),
        size: 0,
        level: 1,
        elemental_honage: 1000,
    }
}

impl Default for WeaponStats {
    /// Creates a default `WeaponStats` with zero damage boost, zero size,
    /// and no procs.
    fn default() -> (res: WeaponStats)
        ensures
            res == default_weapon_stats(),
    {
        WeaponStats {
            damage_flat_boost: 0,
            procs: Procs::new(),
            size: 0,
            level: 1,
            elemental_honage: 1000,
        }
    }
}

/// Represents the player's stats.
#[derive(Clone, Copy, Debug, PartialEq, Eq, Structural)]
pub struct Stats {
    pub game_stats: GameStats,
    pub player_stats: PlayerStats,
    pub weapon_stats: WeaponStats,
}

/// The stats when no upgrade applies.
pub open spec fn default_stats() -> Stats {
    Stats {
        game_stats: default_game_stats(),
        player_stats: default_player_stats(),
        weapon_stats: default_weapon_stats(),
    }
}

impl Default for Stats {
    fn default() -> (res: Stats)
        ensures
            res == default_stats(),
    {
        Stats {
            game_stats: GameStats::default(),
            player_stats: PlayerStats::default(),
            weapon_stats: WeaponStats::default(),
        }
    }
}

/// The debuff stats a proc of the given kind starts with.
pub open spec fn debuff_stats(
    size: Option<i32>,
    damage: Option<i32>,
    on_death: bool,
    on_tick: bool,
    on_damage: bool,
) -> crate::debuffs::DebuffStats {
    crate::debuffs::DebuffStats {
        size,
        damage,
        misc_value: None,
        on_death_effect: on_death,
        on_tick_effect: on_tick,
        on_damage_effect: on_damage,
    }
}

} // verus!
