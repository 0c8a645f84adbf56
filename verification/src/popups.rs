//! The popups shown over a run: the power-up choice on a level-up, and the
//! carnage report at its end.
use vstd::prelude::*;
use crate::powerup::Poweruppable;
use vstd::string::*;
use crate::charms::{
    Charm,
    CharmKind,
    CharmWrapper,
    charm_desc,
    charm_inner_of,
    charm_kind_of,
    charm_max_level,
    charm_name,
    charm_title,
    charm_upgraded,
    charm_wrap,
    first_boost,
    lemma_charm_title_upper,
    names_charm,
};
use crate::keys::Key;
use crate::powerup::{OfferView, PowerupTypes, PowerupUpgrade, to_uppercase, uppercase_of};
use crate::rng::shuffle_indices;
use crate::stats::{Inventory, WeaponStats, saturating_sub};
use crate::upgrades::{PlayerState, PlayerStateDiff};
use crate::weapons::{
    Weapon,
    WeaponKind,
    WeaponWrapper,
    base_damage_of,
    base_size_of,
    inner_of,
    kind_of,
    lemma_weapon_name_upper,
    names_weapon,
    new_weapon,
    str_equals,
    levels_fit,
    levels_fit_check,
    weapon_desc,
    weapon_max_level,
    weapon_name,
    weapon_upgraded,
    wrap,
};

verus! {

/// Which cell of a one-row table is selected: a row and a column, each
/// possibly none.
#[derive(Clone, Copy, Debug, PartialEq, Eq, Structural)]
pub struct Selection {
    pub row: Option<usize>,
    pub column: Option<usize>,
}

impl Selection {
    /// Nothing selected.
    pub fn new() -> (res: Selection)
        ensures
            res == (Selection { row: None, column: None }),
    {
        Selection { row: None, column: None }
    }

    /// Selects the first row.
    pub fn select_first(&mut self)
        ensures
            *final(self) == (Selection { row: Some(0usize), ..*old(self) }),
    {
        self.row = Some(0);
    }

    /// Selects the next column, or the first where none is selected (held
    /// at `usize::MAX`).
    pub fn select_next_column(&mut self)
        ensures
            *final(self) == (Selection {
                column: Some(
                    match old(self).column {
                        None => 0usize,
                        Some(i) => if i == usize::MAX { i } else { (i + 1) as usize },
                    },
                ),
                ..*old(self)
            }),
    {
        let next = match self.column {
            None => 0,
            Some(i) => i.saturating_add(1),
        };
        self.column = Some(next);
    }

    /// Selects the previous column (held at 0), or `usize::MAX` where none
    /// is selected, which drawing the table brings back to its last column.
    pub fn select_previous_column(&mut self)
        ensures
            *final(self) == (Selection {
                column: Some(
                    match old(self).column {
                        None => usize::MAX,
                        Some(i) => if i == 0 { 0usize } else { (i - 1) as usize },
                    },
                ),
                ..*old(self)
            }),
    {
        let previous = match self.column {
            None => usize::MAX,
            Some(i) => i.saturating_sub(1),
        };
        self.column = Some(previous);
    }

    /// The selected cell, where both a row and a column are selected.
    pub fn selected_cell(&self) -> (res: Option<(usize, usize)>)
        ensures
            res == match (self.row, self.column) {
                (Some(r), Some(c)) => Some((r, c)),
                _ => None,
            },
    {
        match (self.row, self.column) {
            (Some(r), Some(c)) => Some((r, c)),
            _ => None,
        }
    }
}

/// The index of the first slot of the list for the weapon, among the first
/// `n`.
pub open spec fn first_weapon(ws: Seq<WeaponWrapper>, kind: WeaponKind, n: int) -> Option<int>
    decreases n,
{
    if n <= 0 {
        None
    } else {
        match first_weapon(ws, kind, n - 1) {
            Some(j) => Some(j),
            None => if kind_of(ws[n - 1]) == kind {
                Some(n - 1)
            } else {
                None
            },
        }
    }
}

/// The index of the first slot of the list for the charm, among the first
/// `n`.
pub open spec fn first_charm(cs: Seq<CharmWrapper>, kind: CharmKind, n: int) -> Option<int>
    decreases n,
{
    if n <= 0 {
        None
    } else {
        match first_charm(cs, kind, n - 1) {
            Some(j) => Some(j),
            None => if charm_kind_of(cs[n - 1]) == kind {
                Some(n - 1)
            } else {
                None
            },
        }
    }
}

/// What the popup offers for the weapon: the next level of the weapon
/// carried, if it has not reached its highest; or, where it is not carried
/// and fewer than three weapons are, the weapon itself.
pub open spec fn weapon_offer(kind: WeaponKind, ws: Seq<WeaponWrapper>, max_method_level: int) -> Option<
    OfferView,
> {
    match first_weapon(ws, kind, ws.len() as int) {
        Some(j) => {
            let level = inner_of(ws[j]).unwrap().stats.level;
            if level >= weapon_max_level(kind, max_method_level) {
                None
            } else {
                Some(
                    (
                        weapon_name(kind),
                        weapon_desc(kind, level + 1),
                        level,
                        (level + 1) as i32,
                        PowerupTypes::Weapon,
                    ),
                )
            }
        },
        None => if ws.len() < 3 {
            Some((weapon_name(kind), "New METHOD: "@ + weapon_name(kind), 0i32, 1i32, PowerupTypes::Weapon))
        } else {
            None
        },
    }
}

/// What the popup offers for the charm, as for weapons.
pub open spec fn charm_offer(kind: CharmKind, cs: Seq<CharmWrapper>, max_charm_level: int) -> Option<
    OfferView,
> {
    match first_charm(cs, kind, cs.len() as int) {
        Some(j) => {
            let level = charm_inner_of(cs[j]).unwrap().level;
            if level >= charm_max_level(kind, max_charm_level) {
                None
            } else {
                Some(
                    (
                        charm_name(kind),
                        charm_desc(kind, level + 1),
                        level,
                        (level + 1) as i32,
                        PowerupTypes::Charm,
                    ),
                )
            }
        },
        None => if cs.len() < 3 {
            Some((charm_name(kind), "New CHARM: "@ + charm_name(kind), 0i32, 1i32, PowerupTypes::Charm))
        } else {
            None
        },
    }
}

/// The offer, as a list of none or one.
pub open spec fn opt_seq(o: Option<OfferView>) -> Seq<OfferView> {
    match o {
        Some(v) => seq![v],
        None => Seq::empty(),
    }
}

/// Everything the popup can offer, in order: FLASH, PILLAR, LIGHTNING,
/// ROW, then the damage multiplier, hype time and attack speed charms.
pub open spec fn offer_candidates(
    ws: Seq<WeaponWrapper>,
    cs: Seq<CharmWrapper>,
    max_method_level: int,
    max_charm_level: int,
) -> Seq<OfferView> {
    opt_seq(weapon_offer(WeaponKind::Flash, ws, max_method_level)) + opt_seq(
        weapon_offer(WeaponKind::Pillar, ws, max_method_level),
    ) + opt_seq(weapon_offer(WeaponKind::Lightning, ws, max_method_level)) + opt_seq(
        weapon_offer(WeaponKind::Row, ws, max_method_level),
    ) + opt_seq(charm_offer(CharmKind::DamageMult, cs, max_charm_level)) + opt_seq(
        charm_offer(CharmKind::HypeTime, cs, max_charm_level),
    ) + opt_seq(charm_offer(CharmKind::AttackSpeed, cs, max_charm_level))
}

/// Every slot holds a weapon.
pub open spec fn all_weapons_in(ws: Seq<WeaponWrapper>) -> bool {
    forall|i: int| 0 <= i < ws.len() ==> (#[trigger] inner_of(ws[i])) is Some
}

/// Every slot holds a charm.
pub open spec fn all_charms_in(cs: Seq<CharmWrapper>) -> bool {
    forall|i: int| 0 <= i < cs.len() ==> (#[trigger] charm_inner_of(cs[i])) is Some
}

/// The index of the first slot for the weapon, or `None`.
fn find_weapon(ws: &Vec<WeaponWrapper>, kind: WeaponKind) -> (res: Option<usize>)
    ensures
        match res {
            Some(j) => j < ws@.len() && first_weapon(ws@, kind, ws@.len() as int) == Some(j as int),
            None => first_weapon(ws@, kind, ws@.len() as int) is None,
        },
{
    let mut i: usize = 0;
    while i < ws.len()
        invariant
            i <= ws@.len(),
            first_weapon(ws@, kind, i as int) is None,
        decreases ws@.len() - i,
    {
        if ws[i].kind() == kind {
            proof {
                lemma_first_weapon_found(ws@, kind, i as int, ws@.len() as int);
            }
            return Some(i);
        }
        i = i + 1;
    }
    None
}

/// The index of the first slot for the charm, or `None`.
fn find_charm(cs: &Vec<CharmWrapper>, kind: CharmKind) -> (res: Option<usize>)
    ensures
        match res {
            Some(j) => j < cs@.len() && first_charm(cs@, kind, cs@.len() as int) == Some(j as int),
            None => first_charm(cs@, kind, cs@.len() as int) is None,
        },
{
    let mut i: usize = 0;
    while i < cs.len()
        invariant
            i <= cs@.len(),
            first_charm(cs@, kind, i as int) is None,
        decreases cs@.len() - i,
    {
        if cs[i].kind() == kind {
            proof {
                lemma_first_charm_found(cs@, kind, i as int, cs@.len() as int);
            }
            return Some(i);
        }
        i = i + 1;
    }
    None
}

/// The slot `first_weapon` finds is among those looked at and is for the
/// weapon.
proof fn lemma_first_weapon_kind(ws: Seq<WeaponWrapper>, kind: WeaponKind, n: int)
    ensures
        first_weapon(ws, kind, n) matches Some(j) ==> 0 <= j < n && kind_of(ws[j]) == kind,
    decreases n,
{
    if n > 0 {
        lemma_first_weapon_kind(ws, kind, n - 1);
    }
}

/// The slot `first_charm` finds is among those looked at and is for the
/// charm.
proof fn lemma_first_charm_kind(cs: Seq<CharmWrapper>, kind: CharmKind, n: int)
    ensures
        first_charm(cs, kind, n) matches Some(j) ==> 0 <= j < n && charm_kind_of(cs[j]) == kind,
    decreases n,
{
    if n > 0 {
        lemma_first_charm_kind(cs, kind, n - 1);
    }
}

/// The lists `first_weapon` looks at grow without changing earlier answers.
proof fn lemma_first_weapon_found(ws: Seq<WeaponWrapper>, kind: WeaponKind, j: int, n: int)
    requires
        first_weapon(ws, kind, j + 1) == Some(j),
        j < n <= ws.len(),
    ensures
        first_weapon(ws, kind, n) == Some(j),
    decreases n - j,
{
    if n > j + 1 {
        lemma_first_weapon_found(ws, kind, j, n - 1);
    }
}

/// The lists `first_charm` looks at grow without changing earlier answers.
proof fn lemma_first_charm_found(cs: Seq<CharmWrapper>, kind: CharmKind, j: int, n: int)
    requires
        first_charm(cs, kind, j + 1) == Some(j),
        j < n <= cs.len(),
    ensures
        first_charm(cs, kind, n) == Some(j),
    decreases n - j,
{
    if n > j + 1 {
        lemma_first_charm_found(cs, kind, j, n - 1);
    }
}

/// The offer for the weapon (see `weapon_offer`), added to `out`.
fn add_weapon_offer(
    out: &mut Vec<PowerupUpgrade>,
    slot: WeaponWrapper,
    ws: &Vec<WeaponWrapper>,
    max_method_level: i32,
)
    requires
        inner_of(slot) is None,
        all_weapons_in(ws@),
    ensures
        final(out)@.map_values(|p: PowerupUpgrade| p@) == old(out)@.map_values(|p: PowerupUpgrade| p@)
            + opt_seq(weapon_offer(kind_of(slot), ws@, max_method_level as int)),
{
    let kind = slot.kind();
    let ghost before = out@;
    match find_weapon(ws, kind) {
        Some(j) => {
            proof {
                assert(inner_of(ws@[j as int]) is Some);
                lemma_first_weapon_kind(ws@, kind, ws@.len() as int);
            }
            match ws[j].get_next_upgrade(1, max_method_level) {
                Some(p) => {
                    out.push(p);
                },
                None => {},
            }
        },
        None => {
            if ws.len() < 3 {
                out.push(PowerupUpgrade::init_weapon(slot));
            }
        },
    }
    proof {
        assert(out@.map_values(|p: PowerupUpgrade| p@) =~= before.map_values(|p: PowerupUpgrade| p@) + opt_seq(
            weapon_offer(kind_of(slot), ws@, max_method_level as int),
        ));
    }
}

/// The offer for the charm (see `charm_offer`), added to `out`.
fn add_charm_offer(
    out: &mut Vec<PowerupUpgrade>,
    slot: CharmWrapper,
    cs: &Vec<CharmWrapper>,
    max_charm_level: i32,
)
    requires
        charm_inner_of(slot) is None,
        all_charms_in(cs@),
    ensures
        final(out)@.map_values(|p: PowerupUpgrade| p@) == old(out)@.map_values(|p: PowerupUpgrade| p@)
            + opt_seq(charm_offer(charm_kind_of(slot), cs@, max_charm_level as int)),
{
    let kind = slot.kind();
    let ghost before = out@;
    match find_charm(cs, kind) {
        Some(j) => {
            proof {
                assert(charm_inner_of(cs@[j as int]) is Some);
                lemma_first_charm_kind(cs@, kind, cs@.len() as int);
            }
            match cs[j].get_next_upgrade(1, max_charm_level) {
                Some(p) => {
                    out.push(p);
                },
                None => {},
            }
        },
        None => {
            if cs.len() < 3 {
                out.push(PowerupUpgrade::init_charm(slot));
            }
        },
    }
    proof {
        assert(out@.map_values(|p: PowerupUpgrade| p@) =~= before.map_values(|p: PowerupUpgrade| p@) + opt_seq(
            charm_offer(charm_kind_of(slot), cs@, max_charm_level as int),
        ));
    }
}

/// `0, 1, ..., n - 1`.
fn indices(n: usize) -> (res: Vec<usize>)
    ensures
        res@.len() == n,
        forall|i: int| 0 <= i < n ==> res@[i] == i,
{
    let mut v: Vec<usize> = Vec::new();
    let mut i: usize = 0;
    while i < n
        invariant
            i <= n,
            v@.len() == i,
            forall|k: int| 0 <= k < i ==> v@[k] == k,
        decreases n - i,
    {
        v.push(i);
        i = i + 1;
    }
    v
}

/// The popup that lets the player pick one of up to three power-ups.
pub struct PowerupPopup {
    pub powerup_choices: Vec<PowerupUpgrade>,
    pub selection_state: Selection,
    pub weapons: Vec<WeaponWrapper>,
    pub charms: Vec<CharmWrapper>,
    pub base_weapon_stats: WeaponStats,
    pub finished: bool,
}

/// Whether a weapon's numbers leave room for its level-ups from `from` to
/// `to` (see `levels_fit`): beyond that the sums would overflow.
pub open spec fn upgradable(kind: WeaponKind, w: Weapon, from: int, to: int) -> bool {
    levels_fit(kind, w, from, to)
}

/// Whether a new weapon can be built on the stats (see `Weapon::new`).
pub open spec fn buildable(stats: WeaponStats) -> bool {
    stats.damage_flat_boost <= i32::MAX - 6 && stats.size <= i32::MAX - 1
}

impl PowerupPopup {
    /// A popup offering up to three of `offer_candidates`, drawn at random
    /// without repeats, over the weapons and charms carried; the first row
    /// is selected where there is a choice.
    pub fn new(
        current_weapons: &Vec<WeaponWrapper>,
        current_charms: &Vec<CharmWrapper>,
        weapon_stats: WeaponStats,
        max_method_level: i32,
        max_charm_level: i32,
    ) -> (res: PowerupPopup)
        requires
            all_weapons_in(current_weapons@),
            all_charms_in(current_charms@),
        ensures
            res.weapons@ == current_weapons@,
            res.charms@ == current_charms@,
            res.base_weapon_stats == weapon_stats,
            !res.finished,
            res.selection_state.column is None,
            res.selection_state.row == if res.powerup_choices@.len() > 0 {
                Some(0usize)
            } else {
                None
            },
            ({
                let cands = offer_candidates(
                    current_weapons@,
                    current_charms@,
                    max_method_level as int,
                    max_charm_level as int,
                );
                &&& res.powerup_choices@.len() == if cands.len() < 3 {
                    cands.len()
                } else {
                    3
                }
                &&& exists|idx: Seq<int>|
                    {
                        &&& idx.len() == res.powerup_choices@.len()
                        &&& idx.no_duplicates()
                        &&& forall|k: int|
                            0 <= k < idx.len() ==> 0 <= #[trigger] idx[k] < cands.len()
                                && res.powerup_choices@[k]@ == cands[idx[k]]
                    }
            }),
    {
        let mut choices: Vec<PowerupUpgrade> = Vec::new();
        add_weapon_offer(&mut choices, WeaponWrapper::Flash(None), current_weapons, max_method_level);
        add_weapon_offer(&mut choices, WeaponWrapper::Pillar(None), current_weapons, max_method_level);
        add_weapon_offer(&mut choices, WeaponWrapper::Lightning(None), current_weapons, max_method_level);
        add_weapon_offer(&mut choices, WeaponWrapper::Row(None), current_weapons, max_method_level);
        add_charm_offer(&mut choices, CharmWrapper::DamageMult(None), current_charms, max_charm_level);
        add_charm_offer(&mut choices, CharmWrapper::HypeTime(None), current_charms, max_charm_level);
        add_charm_offer(&mut choices, CharmWrapper::AttackSpeed(None), current_charms, max_charm_level);
        let ghost cands = offer_candidates(
            current_weapons@,
            current_charms@,
            max_method_level as int,
            max_charm_level as int,
        );
        assert(choices@.map_values(|p: PowerupUpgrade| p@) =~= cands);
        let n = choices.len();
        let mut order = indices(n);
        let ghost plain = order@;
        shuffle_indices(&mut order);
        proof {
            assert(plain.no_duplicates());
            plain.lemma_multiset_has_no_duplicates();
            order@.lemma_multiset_has_no_duplicates_conv();
            broadcast use vstd::seq_lib::group_to_multiset_ensures;
            assert forall|k: int| 0 <= k < order@.len() implies order@[k] < n by {
                assert(order@.contains(order@[k]));
                assert(plain.to_multiset().count(order@[k]) > 0);
                assert(plain.contains(order@[k]));
            }
        }
        let m: usize = if n < 3 { n } else { 3 };
        let mut picked: Vec<PowerupUpgrade> = Vec::new();
        let mut k: usize = 0;
        while k < m
            invariant
                k <= m,
                m <= n,
                n == choices@.len(),
                order@.len() == n,
                order@.no_duplicates(),
                forall|q: int| 0 <= q < n ==> #[trigger] order@[q] < n,
                choices@.map_values(|p: PowerupUpgrade| p@) == cands,
                picked@.len() == k,
                forall|q: int| 0 <= q < k ==> #[trigger] picked@[q]@ == cands[order@[q] as int],
            decreases m - k,
        {
            let j = order[k];
            assert(choices@.map_values(|p: PowerupUpgrade| p@)[j as int] == choices@[j as int]@);
            picked.push(choices[j].duplicate());
            k = k + 1;
        }
        let mut selection_state = Selection::new();
        if picked.len() > 0 {
            selection_state.select_first();
        }
        proof {
            let idx = order@.take(m as int).map_values(|v: usize| v as int);
            assert(idx.no_duplicates()) by {
                assert forall|a: int, b: int| 0 <= a < idx.len() && 0 <= b < idx.len() && a != b implies idx[a]
                    != idx[b] by {
                    assert(order@[a] != order@[b]);
                }
            }
            assert(forall|q: int|
                0 <= q < idx.len() ==> 0 <= #[trigger] idx[q] < cands.len() && picked@[q]@ == cands[idx[q]]);
        }
        PowerupPopup {
            finished: false,
            weapons: copy_weapons(current_weapons),
            charms: copy_charms(current_charms),
            selection_state,
            powerup_choices: picked,
            base_weapon_stats: weapon_stats,
        }
    }
}

/// A copy of the weapon slots.
fn copy_weapons(ws: &Vec<WeaponWrapper>) -> (res: Vec<WeaponWrapper>)
    ensures
        res@ == ws@,
{
    let mut v: Vec<WeaponWrapper> = Vec::new();
    let mut i: usize = 0;
    while i < ws.len()
        invariant
            i <= ws@.len(),
            v@ == ws@.take(i as int),
        decreases ws@.len() - i,
    {
        v.push(ws[i]);
        assert(ws@.take(i + 1) =~= ws@.take(i as int).push(ws@[i as int]));
        i = i + 1;
    }
    assert(ws@.take(i as int) =~= ws@);
    v
}

/// A copy of the charm slots.
fn copy_charms(cs: &Vec<CharmWrapper>) -> (res: Vec<CharmWrapper>)
    ensures
        res@ == cs@,
{
    let mut v: Vec<CharmWrapper> = Vec::new();
    let mut i: usize = 0;
    while i < cs.len()
        invariant
            i <= cs@.len(),
            v@ == cs@.take(i as int),
        decreases cs@.len() - i,
    {
        v.push(cs[i]);
        assert(cs@.take(i + 1) =~= cs@.take(i as int).push(cs@[i as int]));
        i = i + 1;
    }
    assert(cs@.take(i as int) =~= cs@);
    v
}


/// The weapon slots after the offer named `up` (in upper case) is taken:
/// each weapon whose upper-case name is `up` rises from level `from` to
/// `to` (where its numbers leave room, see `upgradable`); where none has
/// that name and `up` names a weapon, a new one of that kind built on
/// `base` joins (where the stats leave room, see `buildable`).
pub open spec fn weapons_after(
    ws: Seq<WeaponWrapper>,
    ws2: Seq<WeaponWrapper>,
    up: Seq<char>,
    from: int,
    to: int,
    base: WeaponStats,
) -> bool {
    let matched = exists|i: int| 0 <= i < ws.len() && uppercase_of(weapon_name(kind_of(#[trigger] ws[i]))) == up;
    &&& ws2.len() >= ws.len()
    &&& forall|i: int|
        0 <= i < ws.len() ==> {
            let w = #[trigger] ws[i];
            &&& kind_of(ws2[i]) == kind_of(w)
            &&& inner_of(ws2[i]) == if uppercase_of(weapon_name(kind_of(w))) == up && upgradable(
                kind_of(w),
                inner_of(w).unwrap(),
                from,
                to,
            ) {
                Some(weapon_upgraded(kind_of(w), inner_of(w).unwrap(), from, to))
            } else {
                inner_of(w)
            }
        }
    &&& if !matched && (exists|k: WeaponKind| names_weapon(up, k)) && buildable(base) {
        &&& ws2.len() == ws.len() + 1
        &&& names_weapon(up, kind_of(ws2.last()))
        &&& inner_of(ws2.last()) == Some(new_weapon(kind_of(ws2.last()), base))
    } else {
        ws2.len() == ws.len()
    }
}

/// The charm slots after the offer named `up` (in upper case) is taken,
/// as for weapons; a charm's own name (see `charm_title`) is compared in
/// upper case, and a charm rises where its boost leaves room.
pub open spec fn charms_after(
    cs: Seq<CharmWrapper>,
    cs2: Seq<CharmWrapper>,
    up: Seq<char>,
    from: int,
    to: int,
) -> bool {
    let matched = exists|i: int| 0 <= i < cs.len() && uppercase_of(charm_title(charm_kind_of(#[trigger] cs[i]))) == up;
    &&& cs2.len() >= cs.len()
    &&& forall|i: int|
        0 <= i < cs.len() ==> {
            let c = #[trigger] cs[i];
            &&& charm_kind_of(cs2[i]) == charm_kind_of(c)
            &&& charm_inner_of(cs2[i]) == if uppercase_of(charm_title(charm_kind_of(c))) == up
                && charm_inner_of(c).unwrap().stat_boost <= u64::MAX - 8000 {
                Some(charm_upgraded(charm_kind_of(c), charm_inner_of(c).unwrap(), from, to))
            } else {
                charm_inner_of(c)
            }
        }
    &&& if !matched && (exists|k: CharmKind| names_charm(up, k)) {
        &&& cs2.len() == cs.len() + 1
        &&& names_charm(up, charm_kind_of(cs2.last()))
        &&& charm_inner_of(cs2.last()) == Some(
            Charm { stat_boost: first_boost(charm_kind_of(cs2.last())) as u64, level: 1 },
        )
    } else {
        cs2.len() == cs.len()
    }
}

/// `f` is the popup `o` once its selected offer is taken (see
/// `PowerupPopup::select_current`).
pub open spec fn took_selection(o: PowerupPopup, f: PowerupPopup) -> bool {
    &&& f.powerup_choices@ == o.powerup_choices@
    &&& f.selection_state == o.selection_state
    &&& f.base_weapon_stats == o.base_weapon_stats
    &&& o.powerup_choices@.len() == 0 ==> {
        &&& f.finished
        &&& f.weapons@ == o.weapons@
        &&& f.charms@ == o.charms@
    }
    &&& o.powerup_choices@.len() > 0 ==> match (o.selection_state.row, o.selection_state.column) {
        (Some(_), Some(col)) => if col < o.powerup_choices@.len() {
            let p = o.powerup_choices@[col as int];
            let up = uppercase_of(p.name@);
            &&& f.finished
            &&& p.powerup_type == PowerupTypes::Weapon ==> {
                &&& weapons_after(
                    o.weapons@,
                    f.weapons@,
                    up,
                    p.curr_level as int,
                    p.new_level as int,
                    o.base_weapon_stats,
                )
                &&& f.charms@ == o.charms@
            }
            &&& p.powerup_type == PowerupTypes::Charm ==> {
                &&& charms_after(
                    o.charms@,
                    f.charms@,
                    up,
                    p.curr_level as int,
                    p.new_level as int,
                )
                &&& f.weapons@ == o.weapons@
            }
        } else {
            &&& f.finished == o.finished
            &&& f.weapons@ == o.weapons@
            &&& f.charms@ == o.charms@
        },
        _ => {
            &&& f.finished == o.finished
            &&& f.weapons@ == o.weapons@
            &&& f.charms@ == o.charms@
        },
    }
}

/// `f` is the popup `o` once it has taken the key (see
/// `PowerupPopup::handle_key_event`).
pub open spec fn key_handled(o: PowerupPopup, f: PowerupPopup, key: Key) -> bool {
    match key {
        Key::Char('d') | Key::Right => {
            let sel = o.selection_state;
            f == PowerupPopup {
                selection_state: Selection {
                    column: Some(
                        match sel.column {
                            None => 0usize,
                            Some(i) => if i == usize::MAX { i } else { (i + 1) as usize },
                        },
                    ),
                    ..sel
                },
                ..o
            }
        },
        Key::Char('a') | Key::Left => {
            let sel = o.selection_state;
            f == PowerupPopup {
                selection_state: Selection {
                    column: Some(
                        match sel.column {
                            None => usize::MAX,
                            Some(i) => if i == 0 { 0usize } else { (i - 1) as usize },
                        },
                    ),
                    ..sel
                },
                ..o
            }
        },
        Key::Enter | Key::Char(' ') => took_selection(o, f),
        _ => f == o,
    }
}

impl PowerupPopup {
    /// Takes the selected offer, if a cell is selected and its column holds
    /// one: the weapons or charms change as `weapons_after` or
    /// `charms_after` say, and the popup is finished. With no offer at all
    /// the popup is finished at once.
    pub fn select_current(&mut self)
        requires
            all_weapons_in(old(self).weapons@),
            all_charms_in(old(self).charms@),
        ensures
            took_selection(*old(self), *final(self)),
            all_weapons_in(final(self).weapons@),
            all_charms_in(final(self).charms@),
    {
        if self.powerup_choices.len() == 0 {
            self.finished = true;
            return;
        }
        match self.selection_state.selected_cell() {
            Some((_, col)) => {
                if col >= self.powerup_choices.len() {
                    return;
                }
                let up = to_uppercase(self.powerup_choices[col].get_name());
                let from = self.powerup_choices[col].curr_level;
                let to = self.powerup_choices[col].new_level;
                match self.powerup_choices[col].powerup_type {
                    PowerupTypes::Weapon => {
                        let offer = self.powerup_choices[col].duplicate();
                        let new_weapons = take_weapon_offer(&self.weapons, &up, &offer, self.base_weapon_stats);
                        self.weapons = new_weapons;
                    },
                    PowerupTypes::Charm => {
                        let offer = self.powerup_choices[col].duplicate();
                        let new_charms = take_charm_offer(&self.charms, &up, &offer);
                        self.charms = new_charms;
                    },
                }
                self.finished = true;
            },
            None => {},
        }
    }

    /// Moves the selection right (`d` or the right arrow) or left (`a` or
    /// the left arrow), or takes the selected offer (Enter or space); other
    /// keys do nothing.
    pub fn handle_key_event(&mut self, key: Key)
        requires
            all_weapons_in(old(self).weapons@),
            all_charms_in(old(self).charms@),
        ensures
            key_handled(*old(self), *final(self), key),
            all_weapons_in(final(self).weapons@),
            all_charms_in(final(self).charms@),
    {
        match key {
            Key::Char('d') | Key::Right => self.selection_state.select_next_column(),
            Key::Char('a') | Key::Left => self.selection_state.select_previous_column(),
            Key::Enter | Key::Char(' ') => self.select_current(),
            _ => {},
        }
    }
}

/// The weapon slots once the offer named `up` is taken (see
/// `weapons_after`).
fn take_weapon_offer(ws: &Vec<WeaponWrapper>, up: &String, offer: &PowerupUpgrade, base: WeaponStats) -> (res:
    Vec<WeaponWrapper>)
    requires
        all_weapons_in(ws@),
    ensures
        weapons_after(ws@, res@, up@, offer.curr_level as int, offer.new_level as int, base),
        all_weapons_in(res@),
{
    let mut out: Vec<WeaponWrapper> = Vec::new();
    let mut matched = false;
    let mut i: usize = 0;
    while i < ws.len()
        invariant
            i <= ws@.len(),
            all_weapons_in(ws@),
            out@.len() == i,
            matched == exists|j: int| 0 <= j < i && uppercase_of(weapon_name(kind_of(#[trigger] ws@[j]))) == up@,
            forall|j: int|
                0 <= j < i ==> {
                    let w = #[trigger] ws@[j];
                    &&& kind_of(out@[j]) == kind_of(w)
                    &&& inner_of(out@[j]) == if uppercase_of(weapon_name(kind_of(w))) == up@ && upgradable(
                        kind_of(w),
                        inner_of(w).unwrap(),
                        offer.curr_level as int,
                        offer.new_level as int,
                    ) {
                        Some(weapon_upgraded(kind_of(w), inner_of(w).unwrap(), offer.curr_level as int, offer.new_level as int))
                    } else {
                        inner_of(w)
                    }
                },
            all_weapons_in(out@),
        decreases ws@.len() - i,
    {
        let mut slot = ws[i];
        assert(inner_of(ws@[i as int]) is Some);
        let name = slot.get_name();
        let name_up = to_uppercase(name.as_str());
        if str_equals(name_up.as_str(), up.as_str()) {
            matched = true;
            if levels_fit_check(slot.kind(), slot.get_inner(), offer.curr_level, offer.new_level) {
                slot.upgrade_self(offer);
            }
        }
        out.push(slot);
        i = i + 1;
    }
    if !matched && base.damage_flat_boost <= i32::MAX - 6 && base.size <= i32::MAX - 1 {
        match WeaponWrapper::from_str(up.as_str()) {
            Some(w) => {
                let mut w = w;
                w.populate_inner(base);
                out.push(w);
                proof {
                    assert(new_weapon(kind_of(w), base) == inner_of(w).unwrap());
                }
            },
            None => {},
        }
    }
    out
}

/// The charm slots once the offer named `up` is taken (see
/// `charms_after`).
fn take_charm_offer(cs: &Vec<CharmWrapper>, up: &String, offer: &PowerupUpgrade) -> (res: Vec<CharmWrapper>)
    requires
        all_charms_in(cs@),
    ensures
        charms_after(cs@, res@, up@, offer.curr_level as int, offer.new_level as int),
        all_charms_in(res@),
{
    let mut out: Vec<CharmWrapper> = Vec::new();
    let mut matched = false;
    let mut i: usize = 0;
    while i < cs.len()
        invariant
            i <= cs@.len(),
            all_charms_in(cs@),
            out@.len() == i,
            matched == exists|j: int| 0 <= j < i && uppercase_of(charm_title(charm_kind_of(#[trigger] cs@[j]))) == up@,
            forall|j: int|
                0 <= j < i ==> {
                    let c = #[trigger] cs@[j];
                    &&& charm_kind_of(out@[j]) == charm_kind_of(c)
                    &&& charm_inner_of(out@[j]) == if uppercase_of(charm_title(charm_kind_of(c))) == up@
                        && charm_inner_of(c).unwrap().stat_boost <= u64::MAX - 8000 {
                        Some(charm_upgraded(charm_kind_of(c), charm_inner_of(c).unwrap(), offer.curr_level as int, offer.new_level as int))
                    } else {
                        charm_inner_of(c)
                    }
                },
            all_charms_in(out@),
        decreases cs@.len() - i,
    {
        let mut slot = cs[i];
        assert(charm_inner_of(cs@[i as int]) is Some);
        let name = slot.get_name();
        let name_up = to_uppercase(name.as_str());
        if str_equals(name_up.as_str(), up.as_str()) {
            matched = true;
            if slot.get_inner().stat_boost <= u64::MAX - 8000 {
                slot.upgrade_self(offer);
            }
        }
        out.push(slot);
        i = i + 1;
    }
    if !matched {
        match CharmWrapper::from_str(up.as_str()) {
            Some(c) => {
                let mut c = c;
                c.populate_inner();
                out.push(c);
            },
            None => {},
        }
    }
    out
}

/// Displays the results of a run to the player.
pub struct CarnageReport {
    pub prev_player_state: PlayerState,
    pub new_player_state: PlayerState,
}

impl CarnageReport {
    /// A report of the run from `prev_player_state` to `new_player_state`.
    pub fn new(prev_player_state: PlayerState, new_player_state: PlayerState) -> (res: CarnageReport)
        ensures
            res.prev_player_state == prev_player_state,
            res.new_player_state == new_player_state,
    {
        CarnageReport { prev_player_state, new_player_state }
    }

    /// What the run earned: the gold gained, held at 0.
    pub fn get_diff(&self) -> (res: PlayerStateDiff)
        ensures
            res.inventory.gold == saturating_sub(
                self.new_player_state.inventory.gold as int,
                self.prev_player_state.inventory.gold as int,
            ),
    {
        PlayerStateDiff { inventory: self.new_player_state.inventory.sub(self.prev_player_state.inventory) }
    }
}
} // verus!
