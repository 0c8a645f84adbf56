//! The upgrades the player buys between runs, how many of each are owned,
//! and the stats they add up to.
use vstd::prelude::*;
use vstd::string::*;

verus! {

/// A node of the upgrade tree.
pub struct UpgradeNode {
    pub title: String,
    pub description: String,
    pub id: String,
    pub cost: Option<u32>,
    pub children: Option<Vec<UpgradeNode>>,
    pub limit: u32,
    pub requires: Vec<String>,
    /// In thousandths.
    pub costscale_override: Option<u64>,
}

/// A list of upgrade nodes, the whole tree at its top.
pub type UpgradeTree = Vec<UpgradeNode>;

/// Whether a node or one of its descendants has the id.
pub open spec fn node_has_id(n: UpgradeNode, id: Seq<char>) -> bool
    decreases n,
{
    n.id@ == id || match n.children {
        Some(c) => nodes_have_id(c@, id),
        None => false,
    }
}

/// Whether a node of the list, or a descendant of one, has the id.
pub open spec fn nodes_have_id(s: Seq<UpgradeNode>, id: Seq<char>) -> bool
    decreases s,
{
    if s.len() == 0 {
        false
    } else {
        nodes_have_id(s.drop_last(), id) || node_has_id(s.last(), id)
    }
}

impl UpgradeNode {
    /// Checks if the upgrade node has any children.
    pub fn has_children(&self) -> (res: bool)
        ensures
            res <==> match self.children {
                Some(c) => c@.len() > 0,
                None => false,
            },
    {
        match &self.children {
            Some(c) => c.len() > 0,
            None => false,
        }
    }

    /// The title as the menu lists it: `" > "` before a folder's title, `" "`
    /// before any other.
    pub fn get_display_title(&self) -> (res: String)
        ensures
            res@ == (if self.children is Some { " > "@ } else { " "@ }) + self.title@,
    {
        let prefix = if self.children.is_some() { " > " } else { " " };
        let out = String::from_str(prefix);
        out.concat(self.title.as_str())
    }
}

/// How many of each upgrade the player owns: a list of ids and counts in
/// which the last entry for an id is the one that holds.
pub struct CurrentUpgrades {
    pub entries: Vec<(String, u32)>,
}

/// The count the last entry for `id` holds, if any.
pub open spec fn lookup_in(s: Seq<(String, u32)>, id: Seq<char>) -> Option<u32>
    decreases s.len(),
{
    if s.len() == 0 {
        None
    } else if s.last().0@ == id {
        Some(s.last().1)
    } else {
        lookup_in(s.drop_last(), id)
    }
}

impl CurrentUpgrades {
    /// The count recorded for `id`, if any.
    pub open spec fn lookup(&self, id: Seq<char>) -> Option<u32> {
        lookup_in(self.entries@, id)
    }

    /// The number owned of the upgrade `id`: 0 where none is recorded.
    pub open spec fn count(&self, id: Seq<char>) -> u32 {
        match self.lookup(id) {
            Some(n) => n,
            None => 0,
        }
    }

    /// No upgrade recorded.
    pub fn new() -> (res: CurrentUpgrades)
        ensures
            forall|id: Seq<char>| #[trigger] res.lookup(id) is None,
    {
        CurrentUpgrades { entries: Vec::new() }
    }

    /// The count recorded for `id`, if any.
    pub fn get(&self, id: &str) -> (res: Option<u32>)
        ensures
            res == self.lookup(id@),
    {
        let key = id.to_owned();
        let mut i = self.entries.len();
        assert(self.entries@.take(i as int) =~= self.entries@);
        while i > 0
            invariant
                i <= self.entries@.len(),
                key@ == id@,
                lookup_in(self.entries@, id@) == lookup_in(self.entries@.take(i as int), id@),
            decreases i,
        {
            assert(self.entries@.take(i as int).drop_last() =~= self.entries@.take(i - 1));
            if self.entries[i - 1].0 == key {
                return Some(self.entries[i - 1].1);
            }
            i = i - 1;
        }
        None
    }

    /// Records `count` for `id`.
    pub fn insert(&mut self, id: String, count: u32)
        ensures
            forall|k: Seq<char>|
                #[trigger] final(self).lookup(k) == if k == id@ {
                    Some(count)
                } else {
                    old(self).lookup(k)
                },
    {
        let ghost old_entries = self.entries@;
        self.entries.push((id, count));
        assert(self.entries@.drop_last() =~= old_entries);
    }
}

/// Adds an entry of 0 to `acc` for every id in the tree, children included.
pub fn get_current_upgrades(upgrade_tree: &Vec<UpgradeNode>, acc: CurrentUpgrades) -> (res:
    CurrentUpgrades)
    ensures
        forall|k: Seq<char>|
            #[trigger] res.lookup(k) == if nodes_have_id(upgrade_tree@, k) {
                Some(0u32)
            } else {
                acc.lookup(k)
            },
    decreases upgrade_tree@,
{
    let mut acc = acc;
    let ghost acc0 = acc;
    let mut i: usize = 0;
    while i < upgrade_tree.len()
        invariant
            i <= upgrade_tree@.len(),
            forall|k: Seq<char>|
                #[trigger] acc.lookup(k) == if nodes_have_id(upgrade_tree@.take(i as int), k) {
                    Some(0u32)
                } else {
                    acc0.lookup(k)
                },
        decreases upgrade_tree@.len() - i,
    {
        let node = &upgrade_tree[i];
        acc.insert(node.id.clone(), 0);
        let ghost acc1 = acc;
        match &node.children {
            Some(children) => {
                proof {
                    assert(decreases_to!(upgrade_tree@ => upgrade_tree@[i as int]));
                }
                acc = get_current_upgrades(children, acc);
            },
            None => {},
        }
        proof {
            let pre = upgrade_tree@.take(i as int);
            let post = upgrade_tree@.take(i + 1);
            assert(post.drop_last() =~= pre);
            assert(post.last() == upgrade_tree@[i as int]);
            assert forall|k: Seq<char>| #[trigger] nodes_have_id(post, k) == (nodes_have_id(pre, k)
                || node_has_id(upgrade_tree@[i as int], k)) by {}
        }
        i = i + 1;
    }
    assert(upgrade_tree@.take(i as int) =~= upgrade_tree@);
    acc
}

} // verus!

verus! {

use crate::stats::{Inventory, GameStats, PlayerStats, WeaponStats, Stats, Procs, saturating_sub, debuff_stats, empty_procs};
use crate::debuffs::{Debuff, DebuffTypes, Proc};

/// A `u32` read as an `i32` by keeping its bits.
pub open spec fn wrap_i32(n: u32) -> int {
    if n <= i32::MAX { n as int } else { n as int - 0x1_0000_0000 }
}

/// `a / b` rounded up, for `b > 0`.
pub open spec fn ceil_div(a: int, b: int) -> int {
    (a + b - 1) / b
}

/// An integer held to the range of `i32`.
pub open spec fn clamp_i32(v: int) -> int {
    if v > i32::MAX { i32::MAX as int } else if v < i32::MIN { i32::MIN as int } else { v }
}

/// The counts for which working out the stats stays within the integer
/// types: every sum and product that is stored fits its field, and mark
/// size is only bought after mark chance.
pub open spec fn refresh_defined(up: &CurrentUpgrades) -> bool {
    let n = |id: Seq<char>| up.count(id) as int;
    &&& n("312"@) > 0 ==> n("311"@) > 0
    &&& 30 * n("41"@) <= u32::MAX
    &&& 2 * n("311"@) <= u32::MAX
    &&& 2 * n("42"@) <= u32::MAX
    &&& 50 * n("51"@) <= u32::MAX
    &&& 50 * n("52"@) <= u32::MAX
    &&& 10 + wrap_i32(up.count("221"@)) <= i32::MAX
    &&& 1 + wrap_i32(up.count("312"@)) <= i32::MAX
    &&& 1 + (if n("12"@) > 0 { 1int } else { 0 }) <= i32::MAX
    &&& 20 + (if n("13"@) > 0 { 5int } else { 0 }) + 2 * n("42"@) + 50 * n("51"@) <= usize::MAX
    &&& 6 + (if n("13"@) > 0 { 5int } else { 0 }) + 2 * n("42"@) + 50 * n("52"@) <= usize::MAX
}

/// The game stats that the owned upgrades add up to.
pub open spec fn refreshed_game_stats(up: &CurrentUpgrades) -> GameStats {
    let n = |id: Seq<char>| up.count(id) as int;
    let has = |id: Seq<char>| up.count(id) > 0;
    let conform = has("11"@);
    let spawn = (if conform { 1000int } else { 50_000int })
        + (if has("13"@) { 800int } else { 0 })
        + (if has("42"@) { 500 * n("42"@) } else { 0 })
        + (if has("51"@) { 1500 * n("51"@) } else { 0 })
        + (if has("52"@) { 1500 * n("52"@) } else { 0 });
    let base_timer = if conform { 60int } else { 10int };
    let timer = if has("24"@) { ceil_div(base_timer * 3 * n("24"@), 2) } else { base_timer };
    let width = 20 + (if has("13"@) { 5int } else { 0 })
        + (if has("42"@) { 2 * n("42"@) } else { 0 })
        + (if has("51"@) { 50 * n("51"@) } else { 0 });
    let height = 6 + (if has("13"@) { 5int } else { 0 })
        + (if has("42"@) { 2 * n("42"@) } else { 0 })
        + (if has("52"@) { 50 * n("52"@) } else { 0 });
    let gold = 1000 + (if has("26"@) { 500 * n("26"@) } else { 0 })
        + (if has("51"@) { 300 * n("51"@) } else { 0 })
        + (if has("52"@) { 300 * n("52"@) } else { 0 });
    let moves = 1000 + (if has("51"@) { 50 * n("51"@) } else { 0 })
        + (if has("52"@) { 50 * n("52"@) } else { 0 });
    GameStats {
        enemy_spawn_mult: spawn as u64,
        enemy_move_mult: moves as u64,
        attack_speed_mult: (1000 + (if has("23"@) { 150 * n("23"@) } else { 0 })) as u64,
        gold_mult: gold as u64,
        width: width as usize,
        height: height as usize,
        timer: timer as u64,
        time_offset: (if has("41"@) { 30 * n("41"@) } else { 0 }) as u64,
        doom_offset: 0,
        max_charm_level: 5,
        max_method_level: 5,
    }
}

/// The base health that the owned upgrades add up to.
pub open spec fn refreshed_base_health(up: &CurrentUpgrades) -> int {
    10 + (if up.count("221"@) > 0 { wrap_i32(up.count("221"@)) } else { 0 })
}

/// The health multiplier, in thousandths, that the owned upgrades add up to.
pub open spec fn refreshed_health_mult(up: &CurrentUpgrades) -> int {
    let hm0 = 1000 + (if up.count("222"@) > 0 { 100 * up.count("222"@) } else { 0 });
    if up.count("223"@) > 0 { hm0 * 3 * up.count("223"@) / 2 } else { hm0 }
}

/// The player stats that the owned upgrades add up to: the health is the
/// base health times the multiplier, rounded up and held to `i32`.
/// The multipliers are held exactly, as whole thousandths, as the upgrade
/// texts state them (a tenth more per level, half as much again): with
/// six levels of health multiplier and one of its exponent, 10 x 1.6 x 1.5
/// is 24 exactly, where a binary floating-point product lands just above
/// 24 and would round up to 25.
pub open spec fn refreshed_player_stats(up: &CurrentUpgrades) -> PlayerStats {
    let n = |id: Seq<char>| up.count(id) as int;
    let has = |id: Seq<char>| up.count(id) > 0;
    let base_health = refreshed_base_health(up);
    let health_mult = refreshed_health_mult(up);
    PlayerStats {
        base_health: base_health as i32,
        health_mult: health_mult as u128,
        health: clamp_i32(ceil_div(base_health * health_mult, 1000)) as i32,
        damage_mult: (1000 + (if has("212"@) { 100 * n("212"@) } else { 0 })) as u64,
        shove_amount: (if has("321"@) { n("321"@) } else { 0 }) as u32,
        shove_damage: (if has("322"@) { n("322"@) } else { 0 }) as u32,
        movement_speed_mult: (1000 + (if has("25"@) { 500 * n("25"@) } else { 0 })) as u64,
    }
}

/// The weapon stats that the owned upgrades add up to.
pub open spec fn refreshed_weapon_stats(up: &CurrentUpgrades) -> WeaponStats {
    let n = |id: Seq<char>| up.count(id) as int;
    let has = |id: Seq<char>| up.count(id) > 0;
    let mark = Proc {
        chance: (2 * n("311"@)) as u32,
        debuff: Debuff {
            stats: debuff_stats(
                Some(
                    (if has("312"@) { 1 + wrap_i32(up.count("312"@)) } else { 1int }) as i32,
                ),
                Some(6),
                true,
                false,
                false,
            ),
            complete: false,
            debuff_type: DebuffTypes::MarkedForExplosion,
        },
    };
    WeaponStats {
        damage_flat_boost: (if has("211"@) { wrap_i32(up.count("211"@)) } else { 0 }) as i32,
        procs: Procs { mark: if has("311"@) { Some(mark) } else { None }, ..empty_procs() },
        size: (if has("12"@) { 1int } else { 0 }) as i32,
        level: 1,
        elemental_honage: (1000 + (if has("27"@) { 250 * n("27"@) } else { 0 })) as u64,
    }
}

/// The stats that the owned upgrades add up to.
pub open spec fn refreshed_stats(up: &CurrentUpgrades) -> Stats {
    Stats {
        game_stats: refreshed_game_stats(up),
        player_stats: refreshed_player_stats(up),
        weapon_stats: refreshed_weapon_stats(up),
    }
}

/// The `i32` with the bits of a `u32`.
fn wrapping_i32(n: u32) -> (res: i32)
    ensures
        res == wrap_i32(n),
{
    if n <= 0x7fff_ffff {
        n as i32
    } else {
        ((n - 0x8000_0000) as i32) - 0x7fff_ffff - 1
    }
}

/// Represents the complete state of the player, including upgrades,
/// inventory, and stats.
pub struct PlayerState {
    pub upgrades: CurrentUpgrades,
    pub inventory: Inventory,
    pub stats: Stats,
}

/// Represents the difference between two `PlayerState` instances.
pub struct PlayerStateDiff {
    /// The difference in the player's inventory.
    pub inventory: Inventory,
}

/// Two players with the same inventory, stats and counts of every upgrade.
pub open spec fn same_player(a: PlayerState, b: PlayerState) -> bool {
    &&& a.inventory == b.inventory
    &&& a.stats == b.stats
    &&& forall|k: Seq<char>| #[trigger] a.upgrades.lookup(k) == b.upgrades.lookup(k)
}

impl CurrentUpgrades {
    /// A copy of the counts.
    pub fn duplicate(&self) -> (res: CurrentUpgrades)
        ensures
            forall|k: Seq<char>| #[trigger] res.lookup(k) == self.lookup(k),
    {
        let mut entries: Vec<(String, u32)> = Vec::new();
        let mut i: usize = 0;
        while i < self.entries.len()
            invariant
                i <= self.entries@.len(),
                entries@.len() == i,
                forall|j: int|
                    0 <= j < i ==> (#[trigger] entries@[j]).0@ == self.entries@[j].0@ && entries@[j].1
                        == self.entries@[j].1,
            decreases self.entries@.len() - i,
        {
            let id = self.entries[i].0.clone();
            entries.push((id, self.entries[i].1));
            i = i + 1;
        }
        let res = CurrentUpgrades { entries };
        proof {
            assert forall|k: Seq<char>| #[trigger] res.lookup(k) == self.lookup(k) by {
                lemma_lookup_same(res.entries@, self.entries@, k);
            }
        }
        res
    }
}

/// Lists whose entries agree in id and count give the same lookups.
pub proof fn lemma_lookup_same(a: Seq<(String, u32)>, b: Seq<(String, u32)>, k: Seq<char>)
    requires
        a.len() == b.len(),
        forall|j: int| 0 <= j < a.len() ==> (#[trigger] a[j]).0@ == b[j].0@ && a[j].1 == b[j].1,
    ensures
        lookup_in(a, k) == lookup_in(b, k),
    decreases a.len(),
{
    if a.len() > 0 {
        lemma_lookup_same(a.drop_last(), b.drop_last(), k);
        assert(a.last().0@ == b.last().0@);
    }
}

/// Upgrades with the same counts add up to the same stats, and can be
/// worked out alike.
pub proof fn lemma_same_counts(a: &CurrentUpgrades, b: &CurrentUpgrades)
    requires
        forall|k: Seq<char>| #[trigger] a.lookup(k) == b.lookup(k),
    ensures
        refresh_defined(a) == refresh_defined(b),
        refreshed_stats(a) == refreshed_stats(b),
{
    assert forall|k: Seq<char>| #[trigger] a.count(k) == b.count(k) by {
        assert(a.lookup(k) == b.lookup(k));
    }
    assert(refreshed_game_stats(a) == refreshed_game_stats(b));
    assert(refreshed_player_stats(a) == refreshed_player_stats(b));
    assert(refreshed_weapon_stats(a) == refreshed_weapon_stats(b));
}

impl PlayerState {
    /// A copy of the player.
    pub fn duplicate(&self) -> (res: PlayerState)
        ensures
            same_player(res, *self),
    {
        PlayerState { upgrades: self.upgrades.duplicate(), inventory: self.inventory, stats: self.stats }
    }

    /// A player with an empty inventory who owns none of the upgrades of
    /// the tree, with the stats that follow.
    pub fn from_tree(upgrade_tree: &Vec<UpgradeNode>) -> (res: PlayerState)
        ensures
            forall|k: Seq<char>| #[trigger] res.upgrades.lookup(k) == if nodes_have_id(
                upgrade_tree@,
                k,
            ) {
                Some(0u32)
            } else {
                None
            },
            res.inventory.gold == 0,
            res.stats == refreshed_stats(&res.upgrades),
    {
        let upgrades = get_current_upgrades(upgrade_tree, CurrentUpgrades::new());
        let mut out = PlayerState {
            inventory: Inventory::new(),
            stats: Stats::default(),
            upgrades,
        };
        proof {
            assert forall|k: Seq<char>| #[trigger] out.upgrades.count(k) == 0 by {}
        }
        out.refresh();
        out
    }

    /// The difference between two player states: the inventory of `self`
    /// less that of `other`.
    pub fn sub(self, other: PlayerState) -> (res: PlayerStateDiff)
        ensures
            res.inventory.gold == saturating_sub(
                self.inventory.gold as int,
                other.inventory.gold as int,
            ),
    {
        PlayerStateDiff { inventory: self.inventory.sub(other.inventory) }
    }

    /// Works out the stats from the upgrades owned, starting from the
    /// defaults.
    pub fn refresh(&mut self)
        requires
            refresh_defined(&old(self).upgrades),
        ensures
            final(self).stats == refreshed_stats(&old(self).upgrades),
            final(self).upgrades == old(self).upgrades,
            final(self).inventory == old(self).inventory,
    {
        let game_stats = self.refreshed_game_stats();
        let player_stats = self.refreshed_player_stats();
        let weapon_stats = self.refreshed_weapon_stats();
        self.stats = Stats { game_stats, player_stats, weapon_stats };
    }

    /// The game stats from the upgrades owned.
    #[verifier::rlimit(50)]
    fn refreshed_game_stats(&self) -> (res: GameStats)
        requires
            refresh_defined(&self.upgrades),
        ensures
            res == refreshed_game_stats(&self.upgrades),
    {
        let mut game_stats = GameStats::default();
        // PRESERVE: conform
        if !self.upgrade_owned("11") {
            game_stats.enemy_spawn_mult = 50_000;
            game_stats.timer = 10;
        }
        // PRESERVE: become
        if self.upgrade_owned("13") {
            game_stats.enemy_spawn_mult = game_stats.enemy_spawn_mult + 800;
            game_stats.height = game_stats.height + 5;
            game_stats.width = game_stats.width + 5;
        }
        // STATS: attack rate
        if self.upgrade_owned("23") {
            game_stats.attack_speed_mult = game_stats.attack_speed_mult + 150 * (
            self.amount_owned("23") as u64);
        }
        // STATS: timer length
        if self.upgrade_owned("24") {
            let m = self.amount_owned("24") as u64;
            let t = game_stats.timer;
            proof {
                assert(t * 3 * m + 1 <= 0xffff_ffff_ffff_ffff) by (nonlinear_arith)
                    requires t <= 60, m <= 0xffff_ffffu64;
            }
            game_stats.timer = (t * 3 * m + 1) / 2;
        }
        if self.upgrade_owned("26") {
            game_stats.gold_mult = game_stats.gold_mult + 500 * (self.amount_owned("26") as u64);
        }
        // GREED: hype and growth
        if self.upgrade_owned("41") {
            game_stats.time_offset = game_stats.time_offset + (30 * self.amount_owned("41")) as u64;
        }
        if self.upgrade_owned("42") {
            let amount_owned = self.amount_owned("42");
            let growth_amount = 2 * amount_owned;
            game_stats.width = game_stats.width + growth_amount as usize;
            game_stats.height = game_stats.height + growth_amount as usize;
            game_stats.enemy_spawn_mult = game_stats.enemy_spawn_mult + 500 * (amount_owned as u64);
        }
        if self.upgrade_owned("51") {
            let amount_owned = self.amount_owned("51");
            let growth_amount = 50 * amount_owned;
            game_stats.width = game_stats.width + growth_amount as usize;
            game_stats.enemy_spawn_mult = game_stats.enemy_spawn_mult + 1500 * (
            amount_owned as u64);
            game_stats.gold_mult = game_stats.gold_mult + 300 * (amount_owned as u64);
            game_stats.enemy_move_mult = game_stats.enemy_move_mult + 50 * (amount_owned as u64);
        }
        if self.upgrade_owned("52") {
            let amount_owned = self.amount_owned("52");
            let growth_amount = 50 * amount_owned;
            game_stats.height = game_stats.height + growth_amount as usize;
            game_stats.enemy_spawn_mult = game_stats.enemy_spawn_mult + 1500 * (
            amount_owned as u64);
            game_stats.gold_mult = game_stats.gold_mult + 300 * (amount_owned as u64);
            game_stats.enemy_move_mult = game_stats.enemy_move_mult + 50 * (amount_owned as u64);
        }
        game_stats
    }

    /// The player stats from the upgrades owned.
    fn refreshed_player_stats(&self) -> (res: PlayerStats)
        requires
            refresh_defined(&self.upgrades),
        ensures
            res == refreshed_player_stats(&self.upgrades),
    {
        let mut player_stats = PlayerStats::default();
        if self.upgrade_owned("212") {
            player_stats.damage_mult = player_stats.damage_mult + 100 * (self.amount_owned(
                "212",
            ) as u64);
        }
        // STATS: health, flat, multiplier and growth
        if self.upgrade_owned("221") {
            player_stats.base_health = player_stats.base_health + wrapping_i32(self.amount_owned("221"));
        }
        if self.upgrade_owned("222") {
            player_stats.health_mult = player_stats.health_mult + 100 * (self.amount_owned(
                "222",
            ) as u128);
        }
        if self.upgrade_owned("223") {
            let m = self.amount_owned("223") as u128;
            let hm = player_stats.health_mult;
            proof {
                assert(hm * 3 * m <= 0x7fff_ffff_ffff_ffff_ffff_ffff_ffff_ffff) by (nonlinear_arith)
                    requires hm <= 1000 + 100 * 0xffff_ffffu128, m <= 0xffff_ffffu128;
            }
            player_stats.health_mult = hm * 3 * m / 2;
        }
        assert(player_stats.health_mult <= 0x1_0000_0000_0000_0000_0000) by {
            let hm = player_stats.health_mult;
            if self.upgrades.count("223"@) > 0 {
                let m = self.upgrades.count("223"@) as int;
                let h0 = if self.upgrades.count("222"@) > 0 { 1000 + 100 * self.upgrades.count("222"@) } else { 1000int };
                assert(h0 * 3 * m / 2 <= 0x1_0000_0000_0000_0000_0000) by (nonlinear_arith)
                    requires 0 <= h0 <= 1000 + 100 * 0xffff_ffffu128, 0 <= m <= 0xffff_ffffu128;
            }
        }
        // STATS: movement speed
        if self.upgrade_owned("25") {
            player_stats.movement_speed_mult = player_stats.movement_speed_mult + 500 * (
            self.amount_owned("25") as u64);
        }
        // SHOVE: amount and damage
        if self.upgrade_owned("321") {
            player_stats.shove_amount = player_stats.shove_amount + self.amount_owned("321");
        }
        if self.upgrade_owned("322") {
            player_stats.shove_damage = player_stats.shove_damage + self.amount_owned("322");
        }
        // health is the base health times the multiplier, rounded up
        let bh = player_stats.base_health as i128;
        let hmul = player_stats.health_mult as i128;
        assert(-0x1_0000_0000_0000_0000_0000_0000_0000 <= bh * hmul <= 0x1_0000_0000_0000_0000_0000_0000_0000) by (nonlinear_arith)
            requires -0x8000_0000 <= bh <= 0x7fff_ffff, 0 <= hmul <= 0x1_0000_0000_0000_0000_0000;
        let product: i128 = bh * hmul;
        let scaled: i128 = if product >= 0 {
            (product + 999) / 1000
        } else {
            -((-product) / 1000)
        };
        player_stats.health = if scaled > i32::MAX as i128 {
            i32::MAX
        } else if scaled < i32::MIN as i128 {
            i32::MIN
        } else {
            scaled as i32
        };
        player_stats
    }

    /// The weapon stats from the upgrades owned.
    fn refreshed_weapon_stats(&self) -> (res: WeaponStats)
        requires
            refresh_defined(&self.upgrades),
        ensures
            res == refreshed_weapon_stats(&self.upgrades),
    {
        let mut weapon_stats = WeaponStats::default();
        // PRESERVE: grow
        if self.upgrade_owned("12") {
            weapon_stats.size = weapon_stats.size + 1;
        }
        // STATS: damage, flat and multiplier
        if self.upgrade_owned("211") {
            weapon_stats.damage_flat_boost = weapon_stats.damage_flat_boost
                + wrapping_i32(self.amount_owned("211"));
        }
        if self.upgrade_owned("27") {
            weapon_stats.elemental_honage = weapon_stats.elemental_honage + 250 * (
            self.amount_owned("27") as u64);
        }
        // MARK: chance and size
        if self.upgrade_owned("311") {
            weapon_stats.procs.mark = Some(
                Proc {
                    chance: 2 * self.amount_owned("311"),
                    debuff: Debuff {
                        stats: crate::debuffs::DebuffStats {
                            size: Some(1),
                            damage: Some(6),
                            misc_value: None,
                            on_death_effect: true,
                            on_tick_effect: false,
                            on_damage_effect: false,
                        },
                        complete: false,
                        debuff_type: DebuffTypes::MarkedForExplosion,
                    },
                },
            );
        }
        if self.upgrade_owned("312") {
            let mut mark = weapon_stats.procs.mark.unwrap();
            mark.debuff.stats.size = Some(1 + wrapping_i32(self.amount_owned("312")));
            weapon_stats.procs.mark = Some(mark);
        }
        weapon_stats
    }

    /// Returns the number of times an upgrade has been purchased.
    pub fn amount_owned(&self, id: &str) -> (res: u32)
        ensures
            res == self.upgrades.count(id@),
    {
        match self.upgrades.get(id) {
            Some(n) => n,
            None => 0,
        }
    }

    /// Whether the stats of the owned upgrades can be worked out: a mark
    /// size needs the mark, and no count overflows what it feeds.
    pub fn can_refresh(&self) -> (res: bool)
        ensures
            res == refresh_defined(&self.upgrades),
    {
        let n41 = self.amount_owned("41") as u128;
        let n42 = self.amount_owned("42") as u128;
        let n51 = self.amount_owned("51") as u128;
        let n52 = self.amount_owned("52") as u128;
        let n311 = self.amount_owned("311") as u128;
        let n312 = self.amount_owned("312");
        let n12 = self.amount_owned("12");
        let n13 = self.amount_owned("13");
        let n221 = self.amount_owned("221");
        let big: u128 = u32::MAX as u128;
        let extra13: u128 = if n13 > 0 { 5 } else { 0 };
        let extra12: i64 = if n12 > 0 { 1 } else { 0 };
        let usize_max = usize::MAX as u128;
        (n312 == 0 || n311 > 0) && 30 * n41 <= big && 2 * n311 <= big && 2 * n42 <= big && 50 * n51
            <= big && 50 * n52 <= big && 10 + wrapping_i32(n221) as i64 <= i32::MAX as i64 && 1
            + wrapping_i32(n312) as i64 <= i32::MAX as i64 && 1 + extra12 <= i32::MAX as i64 && 20
            + extra13 + 2 * n42 + 50 * n51 <= usize_max && 6 + extra13 + 2 * n42 + 50 * n52
            <= usize_max
    }

    /// Checks if the player owns at least one of a specific upgrade.
    pub fn upgrade_owned(&self, id: &str) -> (res: bool)
        ensures
            res == (self.upgrades.count(id@) > 0),
    {
        self.amount_owned(id) > 0
    }
}

} // verus!
