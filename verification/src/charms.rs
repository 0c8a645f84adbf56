//! Charms: passive items that boost the player's stats while carried.
use vstd::prelude::*;
use vstd::string::*;
use crate::powerup::{Poweruppable, PowerupTypes, PowerupUpgrade, uppercase_of, ascii_upper};
use crate::stats::Stats;

verus! {

/// The three charms.
#[derive(Clone, Copy, Debug, PartialEq, Eq, Structural)]
pub enum CharmKind {
    DamageMult,
    HypeTime,
    AttackSpeed,
}

/// A charm: its boost and its level. The boost of the damage multiplier
/// and attack speed charms is a factor in thousandths; that of the hype
/// time charm is a number of seconds.
#[derive(Clone, Copy, Debug, PartialEq, Eq, Structural)]
pub struct Charm {
    pub stat_boost: u64,
    pub level: i32,
}

pub type CharmDamageMult = Charm;

pub type CharmHypeTime = Charm;

pub type CharmAttackSpeed = Charm;

/// The boost a charm of the kind has at level 1.
pub open spec fn first_boost(kind: CharmKind) -> int {
    match kind {
        CharmKind::HypeTime => 60,
        _ => 1250,
    }
}

/// What reaching level `i` does to the boost of a charm of the kind.
pub open spec fn charm_level_effect(kind: CharmKind, boost: int, i: int) -> int {
    match kind {
        CharmKind::DamageMult => if i == 1 {
            1250
        } else if i == 2 {
            boost + 250
        } else if i == 3 {
            boost + 500
        } else if i == 4 {
            boost + 750
        } else if i == 5 {
            boost + 2000
        } else {
            boost
        },
        CharmKind::AttackSpeed => if i == 1 {
            1250
        } else if i == 2 {
            boost + 250
        } else if i == 3 {
            boost + 250
        } else if i == 4 {
            boost + 500
        } else if i == 5 {
            boost + 750
        } else {
            boost
        },
        CharmKind::HypeTime => if i == 1 {
            60
        } else if i == 2 {
            90
        } else if i == 3 {
            150
        } else if i == 4 {
            210
        } else if i == 5 {
            300
        } else {
            boost
        },
    }
}

/// The boost after reaching each level from `from + 1` to `to` in turn.
pub open spec fn charm_levels_applied(kind: CharmKind, boost: int, from: int, to: int) -> int
    decreases to - from,
{
    if to <= from {
        boost
    } else {
        charm_level_effect(kind, charm_levels_applied(kind, boost, from, to - 1), to)
    }
}

/// What the levels from 2 up to `j` add to a boost, at most.
pub open spec fn charm_inc(kind: CharmKind, j: int) -> int {
    match kind {
        CharmKind::DamageMult => if j >= 5 {
            3500
        } else if j >= 4 {
            1500
        } else if j >= 3 {
            750
        } else if j >= 2 {
            250
        } else {
            0
        },
        CharmKind::AttackSpeed => if j >= 5 {
            1750
        } else if j >= 4 {
            1000
        } else if j >= 3 {
            500
        } else if j >= 2 {
            250
        } else {
            0
        },
        CharmKind::HypeTime => 0,
    }
}

/// Level-ups from `from` to `to` keep a boost non-negative and raise it
/// by no more than the levels passed add over the larger of where it
/// started and 1250.
pub proof fn lemma_charm_levels_bounded(kind: CharmKind, boost: int, from: int, to: int)
    requires
        boost >= 0,
    ensures
        0 <= charm_levels_applied(kind, boost, from, to),
        charm_levels_applied(kind, boost, from, to) <= (if boost > 1250 { boost } else { 1250 })
            + charm_inc(kind, if to > from { to } else { from }) - charm_inc(kind, from),
    decreases to - from,
{
    if to > from {
        lemma_charm_levels_bounded(kind, boost, from, to - 1);
    }
}

/// A charm of the kind raised from level `from` to level `to` (see
/// `Charm::upgrade_self`): unchanged where that does not raise it.
pub open spec fn charm_upgraded(kind: CharmKind, c: Charm, from: int, to: int) -> Charm {
    if to <= from {
        c
    } else {
        Charm { stat_boost: charm_levels_applied(kind, c.stat_boost as int, from, to) as u64, level: to as i32 }
    }
}

/// The name a charm of the kind goes by in the menus.
pub open spec fn charm_name(kind: CharmKind) -> Seq<char> {
    match kind {
        CharmKind::DamageMult => "DAMAGE MULTIPLIER CHARM"@,
        CharmKind::HypeTime => "HYPE TIME CHARM"@,
        CharmKind::AttackSpeed => "ATTACK SPEED CHARM"@,
    }
}

/// The name a charm of the kind gives itself.
pub open spec fn charm_title(kind: CharmKind) -> Seq<char> {
    match kind {
        CharmKind::DamageMult => "Damage Multiplier Charm"@,
        CharmKind::HypeTime => "Hype Time Charm"@,
        CharmKind::AttackSpeed => "Attack Speed Charm"@,
    }
}

/// What the offer of the charm's level `level` says.
pub open spec fn charm_desc(kind: CharmKind, level: int) -> Seq<char> {
    match kind {
        CharmKind::DamageMult => if level == 1 {
            "Multiply your Damage Multiplier by 1.25"@
        } else if level == 2 {
            "Increase Damage Mult Mult by 0.25"@
        } else if level == 3 {
            "Increase Damage Mult Mult by 0.5"@
        } else if level == 4 {
            "Increase Damage Mult Mult by 0.75"@
        } else if level == 5 {
            "Increase Damage Mult Mult by 2.0"@
        } else {
            Seq::empty()
        },
        CharmKind::HypeTime => if level == 1 {
            "Set your Hype Time to 1 minutes."@
        } else if level == 2 {
            "Set your Hype Time to 1.5 minutes."@
        } else if level == 3 {
            "Set your Hype Time to 2.5 minutes."@
        } else if level == 4 {
            "Set your Hype Time to 3.5 minutes."@
        } else if level == 5 {
            "Set your Hype Time to 5 minutes. Be prepared."@
        } else {
            Seq::empty()
        },
        CharmKind::AttackSpeed => if level == 1 {
            "Multiply your Attack Speed by 1.25"@
        } else if level == 2 {
            "Increase Attack Speed Mult by 0.25"@
        } else if level == 3 {
            "Increase Attack Speed Mult by 0.25"@
        } else if level == 4 {
            "Increase Attack Speed Mult by 0.5"@
        } else if level == 5 {
            "Increase Attack Speed Mult by 0.75"@
        } else {
            Seq::empty()
        },
    }
}

/// The highest level a charm of the kind reaches: the attack speed charm
/// stops at 5, the others follow the game's `max_charm_level`.
pub open spec fn charm_max_level(kind: CharmKind, max_charm_level: int) -> int {
    if kind == CharmKind::AttackSpeed {
        5
    } else {
        max_charm_level
    }
}

/// `a * b / 1000` rounded down, held at `u64::MAX`.
pub open spec fn scaled_u64(a: int, b: int) -> int {
    if a * b / 1000 > u64::MAX { u64::MAX as int } else { a * b / 1000 }
}

/// What carrying a charm of the kind with boost `boost` does to the stats:
/// the damage multiplier charm multiplies the damage multiplier by it, the
/// attack speed charm the attack speed multiplier, and the hype time charm
/// adds its seconds to the time offset (held at `u64::MAX`).
pub open spec fn charm_stats(kind: CharmKind, boost: int, s: Stats) -> Stats {
    match kind {
        CharmKind::DamageMult => Stats {
            player_stats: crate::stats::PlayerStats {
                damage_mult: scaled_u64(s.player_stats.damage_mult as int, boost) as u64,
                ..s.player_stats
            },
            ..s
        },
        CharmKind::AttackSpeed => Stats {
            game_stats: crate::stats::GameStats {
                attack_speed_mult: scaled_u64(s.game_stats.attack_speed_mult as int, boost) as u64,
                ..s.game_stats
            },
            ..s
        },
        CharmKind::HypeTime => Stats {
            game_stats: crate::stats::GameStats {
                time_offset: (if s.game_stats.time_offset + boost > u64::MAX {
                    u64::MAX as int
                } else {
                    s.game_stats.time_offset + boost
                }) as u64,
                ..s.game_stats
            },
            ..s
        },
    }
}

/// A charm slot: which charm it is and, once it is populated, the charm.
#[derive(Clone, Copy, Debug)]
pub enum CharmWrapper {
    DamageMult(Option<Charm>),
    HypeTime(Option<Charm>),
    AttackSpeed(Option<Charm>),
}

/// The charm a slot stands for.
pub open spec fn charm_kind_of(w: CharmWrapper) -> CharmKind {
    match w {
        CharmWrapper::DamageMult(_) => CharmKind::DamageMult,
        CharmWrapper::HypeTime(_) => CharmKind::HypeTime,
        CharmWrapper::AttackSpeed(_) => CharmKind::AttackSpeed,
    }
}

/// The charm a slot holds, if any.
pub open spec fn charm_inner_of(w: CharmWrapper) -> Option<Charm> {
    match w {
        CharmWrapper::DamageMult(c) => c,
        CharmWrapper::HypeTime(c) => c,
        CharmWrapper::AttackSpeed(c) => c,
    }
}

/// A slot of the kind holding `inner`.
pub open spec fn charm_wrap(kind: CharmKind, inner: Option<Charm>) -> CharmWrapper {
    match kind {
        CharmKind::DamageMult => CharmWrapper::DamageMult(inner),
        CharmKind::HypeTime => CharmWrapper::HypeTime(inner),
        CharmKind::AttackSpeed => CharmWrapper::AttackSpeed(inner),
    }
}

/// Whether `s` names the kind, in either of its two spellings.
pub open spec fn names_charm(s: Seq<char>, kind: CharmKind) -> bool {
    s == charm_title(kind) || s == charm_name(kind)
}

impl PartialEq for CharmWrapper {
    /// Two slots are equal where they stand for the same charm.
    fn eq(&self, other: &Self) -> (res: bool) {
        self.kind() == other.kind()
    }
}

impl vstd::std_specs::cmp::PartialEqSpecImpl for CharmWrapper {
    open spec fn obeys_eq_spec() -> bool {
        true
    }

    open spec fn eq_spec(&self, other: &CharmWrapper) -> bool {
        charm_kind_of(*self) == charm_kind_of(*other)
    }
}

impl Charm {
    /// A new charm of the kind at level 1.
    pub fn new(kind: CharmKind) -> (res: Charm)
        ensures
            res.stat_boost == first_boost(kind),
            res.level == 1,
    {
        match kind {
            CharmKind::HypeTime => Charm { stat_boost: 60, level: 1 },
            _ => Charm { stat_boost: 1250, level: 1 },
        }
    }

    /// The charm's level.
    pub fn get_level(&self) -> (res: i32)
        ensures
            res == self.level,
    {
        self.level
    }

    /// Applies what reaching level `i` does.
    fn apply_level(&mut self, kind: CharmKind, i: i64)
        requires
            old(self).stat_boost <= u64::MAX - 2000,
        ensures
            final(self).stat_boost == charm_level_effect(kind, old(self).stat_boost as int, i as int),
            final(self).level == old(self).level,
    {
        match kind {
            CharmKind::DamageMult => {
                if i == 1 {
                    self.stat_boost = 1250;
                } else if i == 2 {
                    self.stat_boost = self.stat_boost + 250;
                } else if i == 3 {
                    self.stat_boost = self.stat_boost + 500;
                } else if i == 4 {
                    self.stat_boost = self.stat_boost + 750;
                } else if i == 5 {
                    self.stat_boost = self.stat_boost + 2000;
                }
            },
            CharmKind::AttackSpeed => {
                if i == 1 {
                    self.stat_boost = 1250;
                } else if i == 2 {
                    self.stat_boost = self.stat_boost + 250;
                } else if i == 3 {
                    self.stat_boost = self.stat_boost + 250;
                } else if i == 4 {
                    self.stat_boost = self.stat_boost + 500;
                } else if i == 5 {
                    self.stat_boost = self.stat_boost + 750;
                }
            },
            CharmKind::HypeTime => {
                if i == 1 {
                    self.stat_boost = 60;
                } else if i == 2 {
                    self.stat_boost = 90;
                } else if i == 3 {
                    self.stat_boost = 150;
                } else if i == 4 {
                    self.stat_boost = 210;
                } else if i == 5 {
                    self.stat_boost = 300;
                }
            },
        }
    }

    /// Raises the charm from the offer's current level to its new level,
    /// applying each level passed in turn; an offer that does not raise the
    /// level changes nothing.
    pub fn upgrade_self(&mut self, kind: CharmKind, powerup: &PowerupUpgrade)
        requires
            old(self).stat_boost <= u64::MAX - 8000,
        ensures
            powerup.new_level <= powerup.curr_level ==> *final(self) == *old(self),
            powerup.new_level > powerup.curr_level ==> *final(self) == (Charm {
                stat_boost: charm_levels_applied(
                    kind,
                    old(self).stat_boost as int,
                    powerup.curr_level as int,
                    powerup.new_level as int,
                ) as u64,
                level: powerup.new_level,
            }),
    {
        let from = powerup.get_current_level();
        let to = powerup.get_new_level();
        if to <= from {
            return;
        }
        self.level = to;
        let ghost b0 = self.stat_boost as int;
        let mut i: i64 = from as i64 + 1;
        while i <= to as i64
            invariant
                from < i <= to + 1,
                0 <= b0 <= u64::MAX - 8000,
                self.stat_boost == charm_levels_applied(kind, b0, from as int, i - 1),
                self.level == to,
            decreases to - i + 1,
        {
            proof {
                lemma_charm_levels_bounded(kind, b0, from as int, i - 1);
            }
            self.apply_level(kind, i);
            i = i + 1;
        }
    }
}

/// `a * b / 1000` rounded down, held at `u64::MAX`.
fn scale_u64(a: u64, b: u64) -> (res: u64)
    ensures
        res == scaled_u64(a as int, b as int),
{
    assert(0 <= a * b <= 0xffff_ffff_ffff_ffff * 0xffff_ffff_ffff_ffff) by (nonlinear_arith)
        requires 0 <= a <= 0xffff_ffff_ffff_ffff, 0 <= b <= 0xffff_ffff_ffff_ffff;
    let p: u128 = a as u128 * b as u128;
    let q = p / 1000;
    if q > u64::MAX as u128 {
        u64::MAX
    } else {
        q as u64
    }
}

impl CharmWrapper {
    /// The charm this slot stands for.
    pub fn kind(&self) -> (res: CharmKind)
        ensures
            res == charm_kind_of(*self),
    {
        match self {
            CharmWrapper::DamageMult(_) => CharmKind::DamageMult,
            CharmWrapper::HypeTime(_) => CharmKind::HypeTime,
            CharmWrapper::AttackSpeed(_) => CharmKind::AttackSpeed,
        }
    }

    /// An empty slot for each charm, in the order damage multiplier, hype
    /// time, attack speed.
    pub fn iter() -> (res: Vec<CharmWrapper>)
        ensures
            res@ == seq![
                CharmWrapper::DamageMult(None),
                CharmWrapper::HypeTime(None),
                CharmWrapper::AttackSpeed(None),
            ],
    {
        vec![CharmWrapper::DamageMult(None), CharmWrapper::HypeTime(None), CharmWrapper::AttackSpeed(None)]
    }

    /// The name the charm goes by in the menus.
    pub fn name(&self) -> (res: &'static str)
        ensures
            res@ == charm_name(charm_kind_of(*self)),
    {
        match self {
            CharmWrapper::DamageMult(_) => "DAMAGE MULTIPLIER CHARM",
            CharmWrapper::HypeTime(_) => "HYPE TIME CHARM",
            CharmWrapper::AttackSpeed(_) => "ATTACK SPEED CHARM",
        }
    }

    /// The empty slot of the charm `s` names ("Hype Time Charm" or "HYPE
    /// TIME CHARM", and so on), or `None` where it names none.
    pub fn from_str(s: &str) -> (res: Option<CharmWrapper>)
        ensures
            match res {
                Some(w) => charm_inner_of(w) is None && names_charm(s@, charm_kind_of(w)),
                None => forall|k: CharmKind| !names_charm(s@, k),
            },
    {
        if crate::weapons::str_equals(s, "Damage Multiplier Charm") || crate::weapons::str_equals(
            s,
            "DAMAGE MULTIPLIER CHARM",
        ) {
            Some(CharmWrapper::DamageMult(None))
        } else if crate::weapons::str_equals(s, "Hype Time Charm") || crate::weapons::str_equals(
            s,
            "HYPE TIME CHARM",
        ) {
            Some(CharmWrapper::HypeTime(None))
        } else if crate::weapons::str_equals(s, "Attack Speed Charm") || crate::weapons::str_equals(
            s,
            "ATTACK SPEED CHARM",
        ) {
            Some(CharmWrapper::AttackSpeed(None))
        } else {
            proof {
                assert forall|k: CharmKind| !names_charm(s@, k) by {
                    match k {
                        CharmKind::DamageMult => {},
                        CharmKind::HypeTime => {},
                        CharmKind::AttackSpeed => {},
                    }
                }
            }
            None
        }
    }

    /// The charm in the slot.
    pub fn get_inner(&self) -> (res: &Charm)
        requires
            charm_inner_of(*self) is Some,
        ensures
            Some(*res) == charm_inner_of(*self),
    {
        match self {
            CharmWrapper::DamageMult(c) => c.as_ref().unwrap(),
            CharmWrapper::HypeTime(c) => c.as_ref().unwrap(),
            CharmWrapper::AttackSpeed(c) => c.as_ref().unwrap(),
        }
    }

    /// The charm in the slot, to change it in place.
    pub fn get_inner_mut(&mut self) -> (res: &mut Charm)
        requires
            charm_inner_of(*old(self)) is Some,
        ensures
            *res == charm_inner_of(*old(self)).unwrap(),
            *final(self) == charm_wrap(charm_kind_of(*old(self)), Some(*final(res))),
    {
        match self {
            CharmWrapper::DamageMult(c) => c.as_mut().unwrap(),
            CharmWrapper::HypeTime(c) => c.as_mut().unwrap(),
            CharmWrapper::AttackSpeed(c) => c.as_mut().unwrap(),
        }
    }

    /// Puts `inner` in the slot.
    pub fn set_inner(&mut self, inner: Charm)
        ensures
            *final(self) == charm_wrap(charm_kind_of(*old(self)), Some(inner)),
    {
        *self = match self {
            CharmWrapper::DamageMult(_) => CharmWrapper::DamageMult(Some(inner)),
            CharmWrapper::HypeTime(_) => CharmWrapper::HypeTime(Some(inner)),
            CharmWrapper::AttackSpeed(_) => CharmWrapper::AttackSpeed(Some(inner)),
        };
    }

    /// Fills the slot with a new charm of its kind at level 1.
    pub fn populate_inner(&mut self)
        ensures
            charm_kind_of(*final(self)) == charm_kind_of(*old(self)),
            charm_inner_of(*final(self)) == Some(
                Charm { stat_boost: first_boost(charm_kind_of(*old(self))) as u64, level: 1 },
            ),
    {
        let c = Charm::new(self.kind());
        self.set_inner(c);
    }

}

impl Poweruppable for CharmWrapper {
    open spec fn filled(&self) -> bool {
        charm_inner_of(*self) is Some
    }

    open spec fn level_spec(&self) -> int {
        charm_inner_of(*self).unwrap().level as int
    }

    open spec fn max_level_spec(&self, m: int) -> int {
        charm_max_level(charm_kind_of(*self), m)
    }

    open spec fn room_to_rise(&self, from: int, to: int) -> bool {
        charm_inner_of(*self).unwrap().stat_boost <= u64::MAX - 8000
    }

    /// The charm's own name.
    fn get_name(&self) -> (res: String)
        ensures
            res@ == charm_title(charm_kind_of(*self)),
    {
        let title: &str = match self {
            CharmWrapper::DamageMult(_) => "Damage Multiplier Charm",
            CharmWrapper::HypeTime(_) => "Hype Time Charm",
            CharmWrapper::AttackSpeed(_) => "Attack Speed Charm",
        };
        title.to_owned()
    }

    /// Charms are offered as charm power-ups.
    fn get_powerup_type(&self) -> (res: PowerupTypes)
        ensures
            res == PowerupTypes::Charm,
    {
        PowerupTypes::Charm
    }

    /// What the offer of level `level` says; empty outside levels 1 to 5.
    fn upgrade_desc(&self, level: i32) -> (res: String)
        ensures
            res@ == charm_desc(charm_kind_of(*self), level as int),
    {
        let text: &str = match self {
            CharmWrapper::DamageMult(_) => if level == 1 {
                "Multiply your Damage Multiplier by 1.25"
            } else if level == 2 {
                "Increase Damage Mult Mult by 0.25"
            } else if level == 3 {
                "Increase Damage Mult Mult by 0.5"
            } else if level == 4 {
                "Increase Damage Mult Mult by 0.75"
            } else if level == 5 {
                "Increase Damage Mult Mult by 2.0"
            } else {
                return String::new();
            },
            CharmWrapper::HypeTime(_) => if level == 1 {
                "Set your Hype Time to 1 minutes."
            } else if level == 2 {
                "Set your Hype Time to 1.5 minutes."
            } else if level == 3 {
                "Set your Hype Time to 2.5 minutes."
            } else if level == 4 {
                "Set your Hype Time to 3.5 minutes."
            } else if level == 5 {
                "Set your Hype Time to 5 minutes. Be prepared."
            } else {
                return String::new();
            },
            CharmWrapper::AttackSpeed(_) => if level == 1 {
                "Multiply your Attack Speed by 1.25"
            } else if level == 2 {
                "Increase Attack Speed Mult by 0.25"
            } else if level == 3 {
                "Increase Attack Speed Mult by 0.25"
            } else if level == 4 {
                "Increase Attack Speed Mult by 0.5"
            } else if level == 5 {
                "Increase Attack Speed Mult by 0.75"
            } else {
                return String::new();
            },
        };
        text.to_owned()
    }

    /// The highest level the charm reaches (see `charm_max_level`).
    fn get_max_level(&self, max_charm_level: i32) -> (res: i32)
        ensures
            res == charm_max_level(charm_kind_of(*self), max_charm_level as int),
    {
        match self {
            CharmWrapper::AttackSpeed(_) => 5,
            _ => max_charm_level,
        }
    }

    /// The level of the charm in the slot.
    fn get_level(&self) -> (res: i32)
        ensures
            res == charm_inner_of(*self).unwrap().level,
    {
        self.get_inner().get_level()
    }

    /// The offer to raise the charm by `levels_up` levels, or `None` once
    /// it has reached its highest level. The offer goes by the charm's own
    /// name in upper case.
    fn get_next_upgrade(&self, levels_up: i32, max_charm_level: i32) -> (res: Option<PowerupUpgrade>)
        ensures
            ({
                let level = charm_inner_of(*self).unwrap().level as int;
                let kind = charm_kind_of(*self);
                if level >= charm_max_level(kind, max_charm_level as int) {
                    res is None
                } else {
                    res matches Some(p) && {
                        &&& p.name@ == uppercase_of(charm_title(kind))
                        &&& p.name@ == charm_name(kind)
                        &&& p.desc@ == charm_desc(kind, level + levels_up)
                        &&& p.curr_level == level
                        &&& p.new_level == level + levels_up
                        &&& p.powerup_type == PowerupTypes::Charm
                    }
                }
            }),
    {
        let level = self.get_level();
        if level >= self.get_max_level(max_charm_level) {
            None
        } else {
            let new_level = level + levels_up;
            let name = self.get_name();
            proof {
                lemma_charm_title_upper(charm_kind_of(*self));
            }
            Some(
                PowerupUpgrade::new(
                    name.as_str(),
                    self.upgrade_desc(new_level),
                    level,
                    new_level,
                    self.get_powerup_type(),
                ),
            )
        }
    }

    /// Raises the charm in the slot as the offer says (see
    /// `Charm::upgrade_self` and `charm_upgraded`).
    fn upgrade_self(&mut self, powerup: &PowerupUpgrade)
        ensures
            charm_kind_of(*final(self)) == charm_kind_of(*old(self)),
            charm_inner_of(*final(self)) == Some(
                charm_upgraded(
                    charm_kind_of(*old(self)),
                    charm_inner_of(*old(self)).unwrap(),
                    powerup.curr_level as int,
                    powerup.new_level as int,
                ),
            ),
    {
        let kind = self.kind();
        let mut c = *self.get_inner();
        c.upgrade_self(kind, powerup);
        self.set_inner(c);
    }
}

impl CharmWrapper {
    /// Applies the charm in the slot to the stats (see `charm_stats`).
    pub fn manipulate_stats(&self, stats: &mut Stats)
        requires
            charm_inner_of(*self) is Some,
        ensures
            *final(stats) == charm_stats(
                charm_kind_of(*self),
                charm_inner_of(*self).unwrap().stat_boost as int,
                *old(stats),
            ),
    {
        let boost = self.get_inner().stat_boost;
        match self {
            CharmWrapper::DamageMult(_) => {
                stats.player_stats.damage_mult = scale_u64(stats.player_stats.damage_mult, boost);
            },
            CharmWrapper::AttackSpeed(_) => {
                stats.game_stats.attack_speed_mult = scale_u64(stats.game_stats.attack_speed_mult, boost);
            },
            CharmWrapper::HypeTime(_) => {
                stats.game_stats.time_offset = stats.game_stats.time_offset.saturating_add(boost);
            },
        }
    }
}

/// Each charm's own name, in upper case, is the name it goes by in the
/// menus, and both are ASCII.
pub proof fn lemma_charm_title_upper(kind: CharmKind)
    ensures
        vstd::utf8::is_ascii_chars(charm_title(kind)),
        ascii_upper(charm_title(kind)) == charm_name(kind),
{
    reveal_strlit("Damage Multiplier Charm");
    reveal_strlit("Hype Time Charm");
    reveal_strlit("Attack Speed Charm");
    reveal_strlit("DAMAGE MULTIPLIER CHARM");
    reveal_strlit("HYPE TIME CHARM");
    reveal_strlit("ATTACK SPEED CHARM");
    assert(ascii_upper(charm_title(kind)) =~= charm_name(kind));
}

} // verus!
