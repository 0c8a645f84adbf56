//! Paths that chain from one enemy to the next: the bolts of LIGHTNING and
//! of a shock charge.
use vstd::prelude::*;
use crate::coords::Position;
use crate::enemy::{Enemy, abs_int, step_towards, move_to_point_granular};

verus! {

/// A position with coordinates from 0 to `i32::MAX / 2`: the most for
/// which the distance between two positions along both axes together,
/// summed in `i32`, cannot overflow.
pub open spec fn on_map(p: Position) -> bool {
    0 <= p.0 <= 0x3fff_ffff && 0 <= p.1 <= 0x3fff_ffff
}

/// The number of steps along the axes from `a` to `b`.
pub open spec fn manhattan(a: Position, b: Position) -> int {
    abs_int(b.0 - a.0) + abs_int(b.1 - a.1)
}

/// The step from `c` towards `d` along the axis of the larger distance
/// (along y on a tie).
pub open spec fn greedy_step(c: Position, d: Position) -> Position {
    step_towards(c, d, abs_int(d.0 - c.0) > abs_int(d.1 - c.1)).0
}

/// A greedy step between two positions on the map brings the first one
/// step closer and stays on the map.
pub proof fn lemma_greedy_step(c: Position, d: Position)
    requires
        on_map(c),
        on_map(d),
        c != d,
    ensures
        on_map(greedy_step(c, d)),
        manhattan(greedy_step(c, d), d) == manhattan(c, d) - 1,
        abs_int(greedy_step(c, d).0 - d.0) <= abs_int(c.0 - d.0),
        abs_int(greedy_step(c, d).1 - d.1) <= abs_int(c.1 - d.1),
{
}

/// The positions a walk from `c` to `d` passes: each position before `d`
/// in greedy steps, then one step on from `d`, which is the cell above it
/// (or `d` itself on the top row).
pub open spec fn walk_path(c: Position, d: Position) -> Seq<Position>
    decreases manhattan(c, d),
    when on_map(c) && on_map(d)
{
    if c == d {
        seq![step_towards(d, d, false).0]
    } else {
        proof {
            lemma_greedy_step(c, d);
        }
        seq![c] + walk_path(greedy_step(c, d), d)
    }
}

/// Appends the walk from `c` to `d` to `out`.
pub fn walk(c: Position, d: Position, out: &mut Vec<Position>)
    requires
        on_map(c),
        on_map(d),
    ensures
        final(out)@ == old(out)@ + walk_path(c, d),
{
    let ghost start = old(out)@;
    let mut cur = c;
    while cur != d
        invariant
            on_map(cur),
            on_map(d),
            out@ + walk_path(cur, d) == start + walk_path(c, d),
        decreases manhattan(cur, d),
    {
        proof {
            lemma_greedy_step(cur, d);
        }
        let ghost before = out@;
        out.push(cur);
        let (next, _) = move_to_point_granular(&cur, &d, false);
        assert(next == greedy_step(cur, d));
        assert(walk_path(cur, d) == seq![cur] + walk_path(next, d));
        assert(out@ + walk_path(next, d) =~= before + (seq![cur] + walk_path(next, d)));
        cur = next;
    }
    let (fin, _) = move_to_point_granular(&cur, &d, false);
    assert(walk_path(cur, d) == seq![fin]);
    out.push(fin);
    assert(out@ =~= start + walk_path(c, d));
}

/// Two enemies that agree in every field.
pub open spec fn same_enemy(a: Enemy, b: Enemy) -> bool {
    crate::enemy::same_enemy_spec(a, b)
}

/// Whether two enemies agree in every field.
pub fn enemies_equal(a: &Enemy, b: &Enemy) -> (res: bool)
    ensures
        res == same_enemy(*a, *b),
{
    if !(a.position == b.position && a.prev_position == b.prev_position && a.facing == b.facing
        && a.damage == b.damage && a.health == b.health && a.max_health == b.max_health
        && a.is_alive == b.is_alive && a.entitychar == b.entitychar && a.drops == b.drops
        && a.got_hit.0 == b.got_hit.0 && a.got_hit.1 == b.got_hit.1 && a.debuffs.len() == b.debuffs.len()) {
        return false;
    }
    let mut i: usize = 0;
    while i < a.debuffs.len()
        invariant
            i <= a.debuffs@.len(),
            a.debuffs@.len() == b.debuffs@.len(),
            forall|j: int| 0 <= j < i ==> a.debuffs@[j] == b.debuffs@[j],
        decreases a.debuffs@.len() - i,
    {
        if a.debuffs[i] != b.debuffs[i] {
            return false;
        }
        i = i + 1;
    }
    assert(a.debuffs@ =~= b.debuffs@);
    true
}

/// Every enemy of the list stands on the map.
pub open spec fn all_on_map(es: Seq<Enemy>) -> bool {
    forall|i: int| 0 <= i < es.len() ==> on_map(#[trigger] es[i].position)
}

/// Among the first `n` enemies still in play, the first one nearest to `p`.
pub open spec fn nearest_in(es: Seq<Enemy>, alive: Seq<bool>, p: Position, n: int) -> Option<int>
    decreases n,
{
    if n <= 0 {
        None
    } else {
        let prev = nearest_in(es, alive, p, n - 1);
        if !alive[n - 1] {
            prev
        } else {
            match prev {
                None => Some(n - 1),
                Some(j) => if manhattan(es[n - 1].position, p) < manhattan(es[j].position, p) {
                    Some(n - 1)
                } else {
                    Some(j)
                },
            }
        }
    }
}

/// The picks lie among the enemies looked at and still in play.
pub proof fn lemma_pick_bounds(es: Seq<Enemy>, alive: Seq<bool>, p: Position, n: int)
    requires
        0 <= n <= alive.len(),
    ensures
        nearest_in(es, alive, p, n) matches Some(j) ==> 0 <= j < n && alive[j],
        shock_pick(es, alive, p, n) matches Some(j) ==> 0 <= j < n && alive[j],
    decreases n,
{
    if n > 0 {
        lemma_pick_bounds(es, alive, p, n - 1);
    }
}

/// The enemies still in play once every enemy equal to enemy `i` is struck.
pub open spec fn strike(es: Seq<Enemy>, alive: Seq<bool>, i: int) -> Seq<bool> {
    Seq::new(alive.len(), |j: int| alive[j] && !same_enemy(es[j], es[i]))
}

/// The positions of a bolt that, `k` times, walks from where it is to the
/// nearest enemy still in play and strikes it (and every enemy equal to
/// it), moving on from there.
pub open spec fn lightning_chain(es: Seq<Enemy>, alive: Seq<bool>, begin: Position, k: nat) -> Seq<
    Position,
>
    decreases k,
{
    if k == 0 {
        seq![]
    } else {
        match nearest_in(es, alive, begin, es.len() as int) {
            None => seq![],
            Some(i) => walk_path(begin, es[i].position) + lightning_chain(
                es,
                strike(es, alive, i),
                es[i].position,
                (k - 1) as nat,
            ),
        }
    }
}

/// The enemy a shock charge picks among the first `n` still in play:
/// starting from the first, each later one replaces the pick where it is
/// nearer than the pick and more than two steps away, or where the pick is
/// within two steps.
pub open spec fn shock_pick(es: Seq<Enemy>, alive: Seq<bool>, p: Position, n: int) -> Option<int>
    decreases n,
{
    if n <= 0 {
        None
    } else {
        let prev = shock_pick(es, alive, p, n - 1);
        if !alive[n - 1] {
            prev
        } else {
            match prev {
                None => Some(n - 1),
                Some(j) => {
                    let de = manhattan(es[n - 1].position, p);
                    let da = manhattan(es[j].position, p);
                    if (de < da && de > 2) || da <= 2 {
                        Some(n - 1)
                    } else {
                        Some(j)
                    }
                },
            }
        }
    }
}

/// The positions of a shock charge that, `k` times, walks from `begin` to
/// the enemy it picks and strikes it (and every enemy equal to it).
pub open spec fn shock_chain(es: Seq<Enemy>, alive: Seq<bool>, begin: Position, k: nat) -> Seq<
    Position,
>
    decreases k,
{
    if k == 0 {
        seq![]
    } else {
        match shock_pick(es, alive, begin, es.len() as int) {
            None => seq![],
            Some(i) => walk_path(begin, es[i].position) + shock_chain(
                es,
                strike(es, alive, i),
                begin,
                (k - 1) as nat,
            ),
        }
    }
}

/// Every one of `n` enemies in play.
pub open spec fn all_alive(n: nat) -> Seq<bool> {
    Seq::new(n, |j: int| true)
}

/// The first enemy still in play nearest to `p`, or the one a shock charge
/// picks.
fn pick_target(enemies: &Vec<Enemy>, alive: &Vec<bool>, p: Position, shock: bool) -> (res: Option<
    usize,
>)
    requires
        alive@.len() == enemies@.len(),
        all_on_map(enemies@),
        on_map(p),
    ensures
        !shock ==> match res {
            Some(i) => nearest_in(enemies@, alive@, p, enemies@.len() as int) == Some(i as int),
            None => nearest_in(enemies@, alive@, p, enemies@.len() as int) is None,
        },
        shock ==> match res {
            Some(i) => shock_pick(enemies@, alive@, p, enemies@.len() as int) == Some(i as int),
            None => shock_pick(enemies@, alive@, p, enemies@.len() as int) is None,
        },
        res matches Some(i) ==> i < enemies@.len(),
{
    let mut best: Option<usize> = None;
    let mut best_d: u64 = 0;
    let mut n: usize = 0;
    while n < enemies.len()
        invariant
            n <= enemies@.len(),
            alive@.len() == enemies@.len(),
            all_on_map(enemies@),
            on_map(p),
            !shock ==> match best {
                Some(i) => nearest_in(enemies@, alive@, p, n as int) == Some(i as int),
                None => nearest_in(enemies@, alive@, p, n as int) is None,
            },
            shock ==> match best {
                Some(i) => shock_pick(enemies@, alive@, p, n as int) == Some(i as int),
                None => shock_pick(enemies@, alive@, p, n as int) is None,
            },
            best matches Some(j) ==> j < n && best_d == manhattan(enemies@[j as int].position, p),
        decreases enemies@.len() - n,
    {
        proof {
            lemma_pick_bounds(enemies@, alive@, p, n as int);
            lemma_pick_bounds(enemies@, alive@, p, n + 1);
        }
        if alive[n] {
            let q = enemies[n].position;
            assert(on_map(enemies@[n as int].position));
            let dx: u64 = if q.0 >= p.0 { (q.0 - p.0) as u64 } else { (p.0 - q.0) as u64 };
            let dy: u64 = if q.1 >= p.1 { (q.1 - p.1) as u64 } else { (p.1 - q.1) as u64 };
            let d = dx + dy;
            match best {
                None => {
                    best = Some(n);
                    best_d = d;
                },
                Some(_) => {
                    let take = if shock {
                        (d < best_d && d > 2) || best_d <= 2
                    } else {
                        d < best_d
                    };
                    if take {
                        best = Some(n);
                        best_d = d;
                    }
                },
            }
        }
        n = n + 1;
    }
    best
}

/// Strikes every enemy equal to enemy `i`.
fn strike_exec(enemies: &Vec<Enemy>, alive: &mut Vec<bool>, i: usize)
    requires
        old(alive)@.len() == enemies@.len(),
        i < enemies@.len(),
    ensures
        final(alive)@ == strike(enemies@, old(alive)@, i as int),
{
    let ghost orig = alive@;
    let mut j: usize = 0;
    while j < enemies.len()
        invariant
            j <= enemies@.len(),
            i < enemies@.len(),
            alive@.len() == enemies@.len(),
            orig.len() == enemies@.len(),
            forall|k: int| 0 <= k < j ==> #[trigger] alive@[k] == (orig[k] && !same_enemy(enemies@[k], enemies@[i as int])),
            forall|k: int| j <= k < alive@.len() ==> #[trigger] alive@[k] == orig[k],
        decreases enemies@.len() - j,
    {
        if alive[j] && enemies_equal(&enemies[j], &enemies[i]) {
            alive.set(j, false);
        }
        j = j + 1;
    }
    assert(alive@ =~= strike(enemies@, orig, i as int));
}

/// The bolt of `lightning_chain` from `begin`, `size` times (none where
/// `size` is not positive), over all the enemies.
pub fn lightning_path(enemies: &Vec<Enemy>, begin: Position, size: i32) -> (res: Vec<Position>)
    requires
        all_on_map(enemies@),
        on_map(begin),
    ensures
        res@ == lightning_chain(
            enemies@,
            all_alive(enemies@.len()),
            begin,
            (if size > 0 { size as int } else { 0 }) as nat,
        ),
{
    chain_path(enemies, begin, size, false)
}

/// The path of `shock_chain` from `begin`, `size` times (none where `size`
/// is not positive), over all the enemies.
pub fn shock_path(enemies: &Vec<Enemy>, begin: Position, size: i32) -> (res: Vec<Position>)
    requires
        all_on_map(enemies@),
        on_map(begin),
    ensures
        res@ == shock_chain(
            enemies@,
            all_alive(enemies@.len()),
            begin,
            (if size > 0 { size as int } else { 0 }) as nat,
        ),
{
    chain_path(enemies, begin, size, true)
}

fn chain_path(enemies: &Vec<Enemy>, begin: Position, size: i32, shock: bool) -> (res: Vec<Position>)
    requires
        all_on_map(enemies@),
        on_map(begin),
    ensures
        !shock ==> res@ == lightning_chain(
            enemies@,
            all_alive(enemies@.len()),
            begin,
            (if size > 0 { size as int } else { 0 }) as nat,
        ),
        shock ==> res@ == shock_chain(
            enemies@,
            all_alive(enemies@.len()),
            begin,
            (if size > 0 { size as int } else { 0 }) as nat,
        ),
{
    let mut alive: Vec<bool> = Vec::new();
    let mut j: usize = 0;
    while j < enemies.len()
        invariant
            j <= enemies@.len(),
            alive@.len() == j,
            forall|k: int| 0 <= k < j ==> #[trigger] alive@[k],
        decreases enemies@.len() - j,
    {
        alive.push(true);
        j = j + 1;
    }
    let ghost all = all_alive(enemies@.len());
    assert(alive@ =~= all);
    let ghost k0: nat = (if size > 0 { size as int } else { 0 }) as nat;
    let ghost total = if shock {
        shock_chain(enemies@, all, begin, k0)
    } else {
        lightning_chain(enemies@, all, begin, k0)
    };
    let mut res: Vec<Position> = Vec::new();
    let mut from = begin;
    let mut left: i32 = if size > 0 { size } else { 0 };
    while left > 0
        invariant
            0 <= left,
            alive@.len() == enemies@.len(),
            all_on_map(enemies@),
            on_map(from),
            !shock ==> res@ + lightning_chain(enemies@, alive@, from, left as nat) == total,
            shock ==> res@ + shock_chain(enemies@, alive@, from, left as nat) == total,
            shock ==> from == begin,
            k0 == (if size > 0 { size as int } else { 0 }) as nat,
            total == if shock {
                shock_chain(enemies@, all_alive(enemies@.len()), begin, k0)
            } else {
                lightning_chain(enemies@, all_alive(enemies@.len()), begin, k0)
            },
        decreases left,
    {
        let pick = pick_target(enemies, &alive, from, shock);
        match pick {
            None => {
                proof {
                    if shock {
                        assert(shock_chain(enemies@, alive@, from, left as nat) == Seq::<Position>::empty());
                    } else {
                        assert(lightning_chain(enemies@, alive@, from, left as nat) == Seq::<Position>::empty());
                    }
                }
                assert(res@ =~= total);
                return res;
            },
            Some(i) => {
                let target = enemies[i].position;
                assert(on_map(enemies@[i as int].position));
                let ghost before = res@;
                let ghost alive0 = alive@;
                let ghost from_before = from;
                walk(from, target, &mut res);
                strike_exec(enemies, &mut alive, i);
                if !shock {
                    from = target;
                }
                proof {
                    lemma_pick_bounds(enemies@, alive0, from_before, enemies@.len() as int);
                    if shock {
                        assert(shock_pick(enemies@, alive0, from_before, enemies@.len() as int) == Some(i as int));
                        assert(shock_chain(enemies@, alive0, from_before, left as nat) == walk_path(
                            from_before,
                            target,
                        ) + shock_chain(enemies@, alive@, from_before, (left - 1) as nat));
                        assert(res@ + shock_chain(enemies@, alive@, from, (left - 1) as nat) =~= before
                            + shock_chain(enemies@, alive0, from_before, left as nat));
                    } else {
                        assert(lightning_chain(enemies@, alive0, from_before, left as nat) == walk_path(
                            from_before,
                            target,
                        ) + lightning_chain(enemies@, alive@, target, (left - 1) as nat));
                        assert(res@ + lightning_chain(enemies@, alive@, from, (left - 1) as nat) =~= before
                            + lightning_chain(enemies@, alive0, from_before, left as nat));
                    }
                }
                left = left - 1;
            },
        }
    }
    assert(res@ =~= total);
    res
}

} // verus!
