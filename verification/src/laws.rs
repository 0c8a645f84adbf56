//! Properties of the game that hold across its operations.
use vstd::prelude::*;
use crate::coords::{Position, SquareArea, box_positions, box_cells, constrained_pos, in_bounds, square_bounds};
use crate::debuffs::{Debuff, DebuffTypes, Proc};
use crate::effects::RenderPosition;
use crate::enemy::{Enemy, after_proc, count_of_type, hit_by};
use crate::entities::EntityCharacters;
use crate::level::progress_percent;
use crate::map::{Layer, layer_height, layer_valid, layer_width};
use crate::stats::{saturating_add_u128, saturating_sub};
use crate::upgrade_menu::{MenuCrumb, crumb_path, layer_at};
use crate::upgrades::{UpgradeNode, ceil_div, clamp_i32};
use crate::view::{camera_area, overlays, top_entity};
use crate::character::Character;
use crate::effects::DamageEffect;
use crate::pickups::PickupTypes;
use crate::chain::{all_on_map, lightning_chain, manhattan, nearest_in, on_map, shock_chain, shock_pick, strike, walk_path};
use crate::charms::{CharmKind, charm_stats};
use crate::coords::Direction;
use crate::enemy::abs_int;
use crate::enemywrangler::{enemy_turn, turn_via};
use crate::stats::{PlayerStats, Stats};
use crate::upgrades::{CurrentUpgrades, refreshed_stats};
use crate::weapons::{
    flash_square,
    pillar_square,
    row_square,
    Weapon,
    WeaponKind,
    cum_base,
    cum_scalar,
    lemma_levels_bounded,
    levels_applied,
    levels_fit,
    weapon_damage,
    weapon_upgraded,
};

verus! {

/// A position held to a layer with cells lies on one of its cells.
pub proof fn lemma_constrained_inside(p: Position, layer: &Layer)
    requires
        layer_valid(layer),
        layer_width(layer) > 0,
    ensures
        0 <= constrained_pos(p, layer).0 < layer_width(layer),
        0 <= constrained_pos(p, layer).1 < layer_height(layer),
{
}

/// A square area holds (width + 1) times (height + 1) cells, every one of
/// them inside its corners, the first at its top-left corner and the last
/// at its bottom-right corner.
pub proof fn lemma_square_area_cells(a: SquareArea)
    ensures
        ({
            let b = square_bounds(a);
            let cells = box_positions(b);
            &&& cells.len() == (b.2 - b.0 + 1) * (b.3 - b.1 + 1)
            &&& forall|k: int| 0 <= k < cells.len() ==> in_bounds(#[trigger] cells[k], b)
            &&& cells.len() > 0
            &&& cells[0] == Position(b.0, b.1)
            &&& cells.last() == Position(b.2, b.3)
        }),
{
    let b = square_bounds(a);
    let w = b.2 - b.0 + 1;
    let h = b.3 - b.1 + 1;
    assert(w >= 1 && h >= 1);
    assert(w * h >= 1) by (nonlinear_arith)
        requires w >= 1, h >= 1;
    let cells = box_positions(b);
    assert forall|k: int| 0 <= k < cells.len() implies in_bounds(#[trigger] cells[k], b) by {
        assert(0 <= k / h < w && 0 <= k % h < h) by (nonlinear_arith)
            requires 0 <= k < w * h, h >= 1, w >= 1;
    }
    assert((w * h - 1) / h == w - 1 && (w * h - 1) % h == h - 1) by (nonlinear_arith)
        requires w >= 1, h >= 1;
    assert(0int / h == 0 && 0int % h == 0) by (nonlinear_arith)
        requires h >= 1;
}

/// Gold added to an inventory and the inventory before taken off again
/// give back the gold added, where the sum does not overflow.
pub proof fn lemma_add_then_sub_gold(gold: u128, amount: u128)
    requires
        gold + amount <= u128::MAX,
    ensures
        saturating_sub(saturating_add_u128(gold as int, amount as int), gold as int) == amount,
{
}

/// Taking damage never brings a dead enemy back.
pub proof fn lemma_dead_stays_dead(e: Enemy, f: Enemy, damage: i32)
    requires
        !e.is_alive,
        hit_by(e, f, damage),
    ensures
        !f.is_alive,
{
}

/// Debuffs are capped: an enemy carries at most two flame burns and at most
/// one debuff of each other type, and a proc that lands keeps it so.
pub open spec fn within_caps(s: Seq<Debuff>) -> bool {
    &&& count_of_type(s, DebuffTypes::FlameBurn) <= 2
    &&& count_of_type(s, DebuffTypes::FlameIgnite) <= 1
    &&& count_of_type(s, DebuffTypes::MarkedForExplosion) <= 1
    &&& count_of_type(s, DebuffTypes::ShockCharge) <= 1
    &&& count_of_type(s, DebuffTypes::ShockElectrocute) <= 1
}

/// Adding a debuff adds one to the count of its type only.
pub proof fn lemma_count_push(s: Seq<Debuff>, d: Debuff, t: DebuffTypes)
    ensures
        count_of_type(s.push(d), t) == count_of_type(s, t) + if d.debuff_type == t { 1int } else { 0 },
{
    reveal_with_fuel(Seq::filter, 1);
    assert(s.push(d).drop_last() =~= s);
}

/// Whatever the roll, a proc keeps the debuffs of an enemy within their
/// caps (see `within_caps`).
pub proof fn lemma_proc_keeps_caps(s: Seq<Debuff>, p: Proc, roll: int)
    requires
        within_caps(s),
    ensures
        within_caps(after_proc(s, p, roll)),
{
    let r = after_proc(s, p, roll);
    if r != s {
        let d = r.last();
        assert(r == s.push(d));
        lemma_count_push(s, d, DebuffTypes::FlameBurn);
        lemma_count_push(s, d, DebuffTypes::FlameIgnite);
        lemma_count_push(s, d, DebuffTypes::MarkedForExplosion);
        lemma_count_push(s, d, DebuffTypes::ShockCharge);
        lemma_count_push(s, d, DebuffTypes::ShockElectrocute);
    }
}

/// Raising a weapon never lowers its damage, where its base damage is not
/// negative and its numbers leave room for the level-ups (see `levels_fit`).
pub proof fn lemma_upgrade_keeps_damage(kind: WeaponKind, w: Weapon, from: int, to: int)
    requires
        levels_fit(kind, w, from, to),
        w.base_damage >= 0,
    ensures
        weapon_damage(weapon_upgraded(kind, w, from, to)) >= weapon_damage(w),
{
    if to > from {
        let w0 = Weapon { stats: crate::stats::WeaponStats { level: to as i32, ..w.stats }, ..w };
        lemma_levels_bounded(kind, w0, from, to);
        let u = levels_applied(kind, w0, from, to);
        assert(cum_base(kind, to) >= cum_base(kind, from));
        assert(cum_scalar(to) >= cum_scalar(from));
        let a = w.base_damage as int;
        let m = w.damage_scalar as int;
        let a2 = u.base_damage as int;
        let m2 = u.damage_scalar as int;
        assert(a2 >= a && m2 >= m && a >= 0 && m >= 0);
        assert(a2 * m2 >= a * m) by (nonlinear_arith)
            requires a2 >= a, m2 >= m, a >= 0, m >= 0;
        lemma_ceil_div_monotone(a * m, a2 * m2, 1000);
    }
}

/// Rounding up a quotient by a positive divisor keeps order.
pub proof fn lemma_ceil_div_monotone(x: int, y: int, d: int)
    requires
        x <= y,
        d > 0,
    ensures
        ceil_div(x, d) <= ceil_div(y, d),
        clamp_i32(ceil_div(x, d)) <= clamp_i32(ceil_div(y, d)),
{
    assert((x + d - 1) / d <= (y + d - 1) / d) by (nonlinear_arith)
        requires x <= y, d > 0;
}

/// The entity last drawn at a cell is the one shown there: the character,
/// drawn over everything else, is always seen where it stands.
pub proof fn lemma_last_drawn_on_top(overlays: Seq<RenderPosition>, p: Position, base: EntityCharacters)
    requires
        overlays.len() >= 1,
        overlays.last().0 == p,
    ensures
        top_entity(overlays, p, base) == overlays.last().1,
{
}

/// Whatever else stands there, the character is what is shown at its cell.
pub proof fn lemma_character_on_top(
    layer: &Layer,
    pickups: Seq<PickupTypes>,
    enemies: Seq<Enemy>,
    effects: Seq<DamageEffect>,
    character: Character,
    base: EntityCharacters,
)
    ensures
        top_entity(
            overlays(layer, pickups, enemies, effects, character),
            constrained_pos(character.position, layer),
            base,
        ) == character.entitychar,
{
    let o = overlays(layer, pickups, enemies, effects, character);
    lemma_last_drawn_on_top(o, constrained_pos(character.position, layer), base);
}

/// A camera no larger than the layer stays inside it and sees the player.
pub proof fn lemma_camera_sees_player(vw: int, vh: int, p: Position, lw: int, lh: int)
    requires
        0 < vw <= lw <= 0x4000_0000,
        0 < vh <= lh <= 0x4000_0000,
        0 <= p.0 < lw,
        0 <= p.1 < lh,
    ensures
        ({
            let a = camera_area(vw, vh, p, lw, lh);
            &&& 0 <= a.corner1.0 <= p.0 < a.corner2.0 <= lw
            &&& 0 <= a.corner1.1 <= p.1 < a.corner2.1 <= lh
            &&& a.corner2.0 - a.corner1.0 == vw
            &&& a.corner2.1 - a.corner1.1 == vh
        }),
{
}

/// The progress bar never shows more than a full bar.
pub proof fn lemma_progress_at_most_full(xp: int, t: int)
    requires
        xp >= 0,
        t >= 100,
    ensures
        0 <= progress_percent(xp, t) <= 100,
{
    assert(100 * xp / t >= 0) by (nonlinear_arith)
        requires xp >= 0, t >= 100;
}

/// Going back after entering a folder (see `navigate_into_upgrade` and
/// `go_back`) returns the menu to the list it was at.
pub proof fn lemma_back_undoes_enter(root: Seq<UpgradeNode>, before: Seq<MenuCrumb>, entered: Seq<MenuCrumb>, i: usize)
    requires
        crumb_path(entered) == crumb_path(before).push(i),
    ensures
        crumb_path(entered.drop_last()) == crumb_path(before),
        layer_at(root, crumb_path(entered.drop_last())) == layer_at(root, crumb_path(before)),
{
    assert(entered.len() == crumb_path(entered).len());
    assert(crumb_path(entered.drop_last()) =~= crumb_path(entered).drop_last());
    assert(crumb_path(entered).drop_last() =~= crumb_path(before));
}


/// An enemy on the character's row, two or more cells away and not shoved,
/// steps one cell towards the character, turning that way, where that
/// cell is on the map and outside the box `b` around the enemies.
pub proof fn lemma_enemy_closes_in_along_its_row(
    e: Enemy,
    f: Enemy,
    cpos: Position,
    b: (i32, i32, i32, i32),
    stats: PlayerStats,
    width: i32,
    height: i32,
    layer: &Layer,
)
    requires
        enemy_turn(e, f, cpos, b, stats, width, height, layer),
        stats.shove_amount == 0,
        on_map(e.position),
        on_map(cpos),
        e.position.1 == cpos.1,
        abs_int(cpos.0 - e.position.0) >= 2,
        ({
            let q = Position(if cpos.0 > e.position.0 { e.position.0 + 1 } else { e.position.0 - 1 } as i32, e.position.1);
            &&& 0 <= q.0 < width
            &&& 0 <= q.1 < height
            &&& !in_bounds(q, b)
        }),
    ensures
        f.position == Position(if cpos.0 > e.position.0 { e.position.0 + 1 } else { e.position.0 - 1 } as i32, e.position.1),
        f.facing == if cpos.0 > e.position.0 { Direction::RIGHT } else { Direction::LEFT },
        manhattan(f.position, cpos) == manhattan(e.position, cpos) - 1,
{
    let (m, h) = choose|m: Enemy, h: Enemy| #[trigger] turn_via(e, f, m, h, cpos, b, stats, width, height, layer);
}

/// An enemy off the character's row and column, not shoved, ends its turn
/// one cell nearer the character where both cells one step nearer (along
/// x and along y) are on the map, off the character and outside the box `b`
/// around the enemies.
pub proof fn lemma_enemy_closes_in(
    e: Enemy,
    f: Enemy,
    cpos: Position,
    b: (i32, i32, i32, i32),
    stats: PlayerStats,
    width: i32,
    height: i32,
    layer: &Layer,
)
    requires
        enemy_turn(e, f, cpos, b, stats, width, height, layer),
        stats.shove_amount == 0,
        on_map(e.position),
        on_map(cpos),
        e.position.0 != cpos.0,
        e.position.1 != cpos.1,
        ({
            let qx = Position(if cpos.0 > e.position.0 { e.position.0 + 1 } else { e.position.0 - 1 } as i32, e.position.1);
            let qy = Position(e.position.0, if cpos.1 > e.position.1 { e.position.1 + 1 } else { e.position.1 - 1 } as i32);
            &&& 0 <= qx.0 < width && 0 <= qx.1 < height && !in_bounds(qx, b) && qx != cpos
            &&& 0 <= qy.0 < width && 0 <= qy.1 < height && !in_bounds(qy, b) && qy != cpos
        }),
    ensures
        manhattan(f.position, cpos) == manhattan(e.position, cpos) - 1,
{
    let (m, h) = choose|m: Enemy, h: Enemy| #[trigger] turn_via(e, f, m, h, cpos, b, stats, width, height, layer);
}

/// The enemy a bolt goes to is a live enemy no farther from `p` than any
/// other live one among the first `n`; none is picked only where none of
/// them is live.
pub proof fn lemma_nearest_is_nearest(es: Seq<Enemy>, alive: Seq<bool>, p: Position, n: int)
    requires
        0 <= n <= es.len(),
        alive.len() == es.len(),
    ensures
        match nearest_in(es, alive, p, n) {
            Some(i) => {
                &&& 0 <= i < n
                &&& alive[i]
                &&& forall|j: int|
                    0 <= j < n && alive[j] ==> manhattan(es[i].position, p) <= manhattan(
                        #[trigger] es[j].position,
                        p,
                    )
            },
            None => forall|j: int| 0 <= j < n ==> !#[trigger] alive[j],
        },
    decreases n,
{
    if n > 0 {
        lemma_nearest_is_nearest(es, alive, p, n - 1);
    }
}

/// A walk from `c` to `d` on the map starts at `c` (where they differ),
/// comes one step nearer `d` with each position, and has one position more
/// than the distance.
pub proof fn lemma_walk_comes_nearer(c: Position, d: Position)
    requires
        on_map(c),
        on_map(d),
    ensures
        walk_path(c, d).len() == manhattan(c, d) + 1,
        c != d ==> walk_path(c, d)[0] == c,
        forall|i: int|
            0 <= i < walk_path(c, d).len() - 1 ==> manhattan(#[trigger] walk_path(c, d)[i], d) == manhattan(c, d) - i,
    decreases manhattan(c, d),
{
    if c != d {
        crate::chain::lemma_greedy_step(c, d);
        let g = crate::chain::greedy_step(c, d);
        lemma_walk_comes_nearer(g, d);
        let w = walk_path(c, d);
        assert(w == seq![c] + walk_path(g, d));
        assert forall|i: int| 0 <= i < w.len() - 1 implies manhattan(#[trigger] w[i], d) == manhattan(c, d) - i by {
            if i > 0 {
                assert(w[i] == walk_path(g, d)[i - 1]);
            }
        }
    }
}

/// A LIGHTNING bolt with two or more bounces first walks from `begin` to
/// the nearest live enemy, which leaves play; where another live enemy is
/// left, standing elsewhere, the next bounce starts at the enemy just
/// struck.
pub proof fn lemma_lightning_bounces_from_struck(es: Seq<Enemy>, alive: Seq<bool>, begin: Position, k: nat)
    requires
        alive.len() == es.len(),
        all_on_map(es),
        on_map(begin),
        k >= 2,
    ensures
        nearest_in(es, alive, begin, es.len() as int) matches Some(i) ==> {
            let t = es[i].position;
            let a2 = strike(es, alive, i);
            let w = walk_path(begin, t);
            let chain = lightning_chain(es, alive, begin, k);
            &&& chain.len() >= w.len()
            &&& chain.take(w.len() as int) == w
            &&& !a2[i]
            &&& nearest_in(es, a2, t, es.len() as int) matches Some(j) ==> {
                &&& a2[j]
                &&& forall|q: int| 0 <= q < es.len() && a2[q] ==> manhattan(es[j].position, t)
                    <= manhattan(#[trigger] es[q].position, t)
                &&& (es[j].position != t ==> chain.len() > w.len() && chain[w.len() as int] == t)
            }
        },
{
    let n = es.len() as int;
    lemma_nearest_is_nearest(es, alive, begin, n);
    if let Some(i) = nearest_in(es, alive, begin, n) {
        let t = es[i].position;
        let a2 = strike(es, alive, i);
        assert(on_map(es[i].position));
        let w = walk_path(begin, t);
        let rest = lightning_chain(es, a2, t, (k - 1) as nat);
        assert(lightning_chain(es, alive, begin, k) == w + rest);
        assert((w + rest).take(w.len() as int) =~= w);
        assert(crate::chain::same_enemy(es[i], es[i]));
        lemma_nearest_is_nearest(es, a2, t, n);
        if let Some(j) = nearest_in(es, a2, t, n) {
            assert(on_map(es[j].position));
            if es[j].position != t {
                lemma_walk_comes_nearer(t, es[j].position);
                assert(rest == walk_path(t, es[j].position) + lightning_chain(
                    es,
                    strike(es, a2, j),
                    es[j].position,
                    (k - 2) as nat,
                ));
            }
        }
    }
}

/// FLASH covers exactly the cells in front of the wielder at `p`: facing
/// left, the `size` columns to its left within `size` rows either way, and
/// likewise for the other ways.
pub proof fn lemma_flash_covers_the_cells_ahead(p: Position, facing: Direction, size: int, q: Position)
    requires
        1 <= size,
        i32::MIN <= p.0 - size,
        p.0 + size <= i32::MAX,
        i32::MIN <= p.1 - size,
        p.1 + size <= i32::MAX,
    ensures
        in_bounds(q, square_bounds(flash_square(p, facing, size))) <==> match facing {
            Direction::LEFT => p.0 - size <= q.0 < p.0 && p.1 - size <= q.1 <= p.1 + size,
            Direction::RIGHT => p.0 < q.0 <= p.0 + size && p.1 - size <= q.1 <= p.1 + size,
            Direction::UP => p.1 - size <= q.1 < p.1 && p.0 - size <= q.0 <= p.0 + size,
            Direction::DOWN => p.1 < q.1 <= p.1 + size && p.0 - size <= q.0 <= p.0 + size,
        },
{
}

/// Each level of the gold upgrade "26" adds half again to the gold
/// multiplier: owning one more level of it, all else alike, raises the
/// multiplier by 500 thousandths and leaves every other game stat as it is.
pub proof fn lemma_gold_upgrade_adds_half(a: CurrentUpgrades, b: CurrentUpgrades)
    requires
        forall|k: Seq<char>| k != "26"@ ==> #[trigger] b.count(k) == a.count(k),
        b.count("26"@) == a.count("26"@) + 1,
    ensures
        refreshed_stats(&b).game_stats.gold_mult == refreshed_stats(&a).game_stats.gold_mult + 500,
        refreshed_stats(&b).game_stats == (crate::stats::GameStats {
            gold_mult: refreshed_stats(&b).game_stats.gold_mult,
            ..refreshed_stats(&a).game_stats
        }),
{
    reveal_strlit("26");
    reveal_strlit("11");
    reveal_strlit("13");
    reveal_strlit("42");
    reveal_strlit("51");
    reveal_strlit("52");
    reveal_strlit("24");
    reveal_strlit("23");
    reveal_strlit("41");
    assert("11"@[0] != "26"@[0]);
    assert(b.count("11"@) == a.count("11"@));
    assert("13"@[0] != "26"@[0]);
    assert(b.count("13"@) == a.count("13"@));
    assert("42"@[0] != "26"@[0]);
    assert(b.count("42"@) == a.count("42"@));
    assert("51"@[0] != "26"@[0]);
    assert(b.count("51"@) == a.count("51"@));
    assert("52"@[0] != "26"@[0]);
    assert(b.count("52"@) == a.count("52"@));
    assert("24"@[1] != "26"@[1]);
    assert(b.count("24"@) == a.count("24"@));
    assert("23"@[1] != "26"@[1]);
    assert(b.count("23"@) == a.count("23"@));
    assert("41"@[0] != "26"@[0]);
    assert(b.count("41"@) == a.count("41"@));
}

/// Owning none of the gold upgrades ("26", "51", "52"), gold is scaled by
/// exactly 1.
pub proof fn lemma_gold_unscaled_without_upgrades(a: CurrentUpgrades)
    requires
        a.count("26"@) == 0,
        a.count("51"@) == 0,
        a.count("52"@) == 0,
    ensures
        refreshed_stats(&a).game_stats.gold_mult == 1000,
{
}

/// Carrying a charm with boost `b` (thousandths) multiplies what it boosts
/// by `b / 1000`, rounded down and held at `u64::MAX` (the hype time charm
/// adds `b` seconds instead), and leaves every other stat as it is.
pub proof fn lemma_charm_scales_its_stat(kind: CharmKind, b: u64, s: Stats)
    ensures
        ({
            let t = charm_stats(kind, b as int, s);
            match kind {
                CharmKind::AttackSpeed => {
                    let m = s.game_stats.attack_speed_mult as int;
                    let r = t.game_stats.attack_speed_mult as int;
                    &&& t == (Stats {
                        game_stats: crate::stats::GameStats { attack_speed_mult: t.game_stats.attack_speed_mult, ..s.game_stats },
                        ..s
                    })
                    &&& m * b < (u64::MAX + 1) * 1000 ==> r * 1000 <= m * b < r * 1000 + 1000
                    &&& m * b >= (u64::MAX + 1) * 1000 ==> r == u64::MAX
                },
                CharmKind::DamageMult => {
                    let m = s.player_stats.damage_mult as int;
                    let r = t.player_stats.damage_mult as int;
                    &&& t == (Stats {
                        player_stats: crate::stats::PlayerStats { damage_mult: t.player_stats.damage_mult, ..s.player_stats },
                        ..s
                    })
                    &&& m * b < (u64::MAX + 1) * 1000 ==> r * 1000 <= m * b < r * 1000 + 1000
                    &&& m * b >= (u64::MAX + 1) * 1000 ==> r == u64::MAX
                },
                CharmKind::HypeTime => {
                    &&& t == (Stats {
                        game_stats: crate::stats::GameStats { time_offset: t.game_stats.time_offset, ..s.game_stats },
                        ..s
                    })
                    &&& t.game_stats.time_offset == if s.game_stats.time_offset + b > u64::MAX {
                        u64::MAX as int
                    } else {
                        s.game_stats.time_offset + b
                    }
                },
            }
        }),
{
    let m1 = s.game_stats.attack_speed_mult as int;
    let m2 = s.player_stats.damage_mult as int;
    vstd::arithmetic::div_mod::lemma_fundamental_div_mod(m1 * b, 1000);
    vstd::arithmetic::div_mod::lemma_fundamental_div_mod(m2 * b, 1000);
    assert(m1 * b >= 0 && m2 * b >= 0) by (nonlinear_arith)
        requires m1 >= 0, m2 >= 0, b >= 0;
}


/// A shock charge with two or more bounces first walks from `begin` to the
/// enemy it picks, which leaves play; where it picks another enemy, standing
/// elsewhere than `begin`, the next bounce starts again at `begin`.
pub proof fn lemma_shock_bounces_from_the_start(es: Seq<Enemy>, alive: Seq<bool>, begin: Position, k: nat)
    requires
        alive.len() == es.len(),
        all_on_map(es),
        on_map(begin),
        k >= 2,
    ensures
        shock_pick(es, alive, begin, es.len() as int) matches Some(i) ==> {
            let t = es[i].position;
            let a2 = strike(es, alive, i);
            let w = walk_path(begin, t);
            let chain = shock_chain(es, alive, begin, k);
            &&& chain.take(w.len() as int) == w
            &&& !a2[i]
            &&& shock_pick(es, a2, begin, es.len() as int) matches Some(j) ==> (es[j].position != begin
                ==> chain.len() > w.len() && chain[w.len() as int] == begin)
        },
{
    let n = es.len() as int;
    crate::chain::lemma_pick_bounds(es, alive, begin, n);
    if let Some(i) = shock_pick(es, alive, begin, n) {
        let t = es[i].position;
        let a2 = strike(es, alive, i);
        assert(on_map(es[i].position));
        let w = walk_path(begin, t);
        let rest = shock_chain(es, a2, begin, (k - 1) as nat);
        assert(shock_chain(es, alive, begin, k) == w + rest);
        assert((w + rest).take(w.len() as int) =~= w);
        assert(crate::chain::same_enemy(es[i], es[i]));
        crate::chain::lemma_pick_bounds(es, a2, begin, n);
        if let Some(j) = shock_pick(es, a2, begin, n) {
            assert(on_map(es[j].position));
            if es[j].position != begin {
                lemma_walk_comes_nearer(begin, es[j].position);
                assert(rest == walk_path(begin, es[j].position) + shock_chain(
                    es,
                    strike(es, a2, j),
                    begin,
                    (k - 2) as nat,
                ));
            }
        }
    }
}

/// PILLAR covers the columns within half its size (rounded down) of the
/// wielder's, over the whole height; ROW the rows within half its size of
/// the wielder's, over the whole width.
pub proof fn lemma_pillar_and_row_cover_their_lines(p: Position, size: int, q: Position)
    requires
        0 <= size <= i32::MAX,
        i32::MIN <= p.0 - size / 2,
        p.0 + size / 2 <= i32::MAX,
        i32::MIN <= p.1 - size / 2,
        p.1 + size / 2 <= i32::MAX,
    ensures
        in_bounds(q, square_bounds(pillar_square(p, size))) <==> (p.0 - size / 2 <= q.0 <= p.0 + size / 2
            && 0 <= q.1),
        in_bounds(q, square_bounds(row_square(p, size))) <==> (p.1 - size / 2 <= q.1 <= p.1 + size / 2
            && 0 <= q.0),
{
}


/// The gold multiplier is 1, plus a half for each level of upgrade "26",
/// plus three tenths for each level of "51" and of "52" (in thousandths).
pub proof fn lemma_gold_multiplier_from_upgrades(a: CurrentUpgrades)
    ensures
        refreshed_stats(&a).game_stats.gold_mult == 1000 + 500 * a.count("26"@) + 300 * (a.count("51"@)
            + a.count("52"@)),
{
}

} // verus!
