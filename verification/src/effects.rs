//! Damage areas that attacks produce, and the timed effects that show them.
//! Times are whole milliseconds on one clock that the caller reads.
use vstd::prelude::*;
use crate::coords::{AreaWrapper, ChaosArea, Position, SquareArea};
use crate::entities::{EntityCharacters, Style, plain_style};
use crate::stats::WeaponStats;

verus! {

/// Two areas of the same shape over the same positions.
pub open spec fn same_area(a: AreaWrapper, b: AreaWrapper) -> bool {
    match (a, b) {
        (AreaWrapper::Square(x), AreaWrapper::Square(y)) => x == y,
        (AreaWrapper::Chaos(x), AreaWrapper::Chaos(y)) => x.position_list@ == y.position_list@,
        _ => false,
    }
}

impl AreaWrapper {
    /// A copy of the area.
    pub fn duplicate(&self) -> (res: AreaWrapper)
        ensures
            same_area(res, *self),
    {
        match self {
            AreaWrapper::Square(s) => AreaWrapper::Square(*s),
            AreaWrapper::Chaos(c) => AreaWrapper::Chaos(ChaosArea::new(c.get_positions())),
        }
    }
}

/// Represents an area where damage is applied, created by a weapon attack.
pub struct DamageArea {
    pub damage_amount: i32,
    pub area: AreaWrapper,
    pub entity: EntityCharacters,
    /// How long the area shows, in milliseconds.
    pub duration: u64,
    pub blink: bool,
    pub weapon_stats: Option<WeaponStats>,
}

/// Two damage areas that agree in every field.
pub open spec fn same_damage_area(a: DamageArea, b: DamageArea) -> bool {
    &&& a.damage_amount == b.damage_amount
    &&& same_area(a.area, b.area)
    &&& a.entity == b.entity
    &&& a.duration == b.duration
    &&& a.blink == b.blink
    &&& a.weapon_stats == b.weapon_stats
}

impl DamageArea {
    /// A damage area that covers nothing, deals nothing and lasts no time.
    pub fn new_empty() -> (res: DamageArea)
        ensures
            res.damage_amount == 0,
            res.area matches AreaWrapper::Chaos(c) && c.position_list@.len() == 0,
            res.duration == 0,
            res.entity == EntityCharacters::Empty(plain_style()),
            !res.blink,
            res.weapon_stats is None,
    {
        DamageArea {
            damage_amount: 0,
            area: AreaWrapper::Chaos(ChaosArea::empty()),
            duration: 0,
            entity: EntityCharacters::Empty(Style::new()),
            blink: false,
            weapon_stats: None,
        }
    }

    /// A copy of the damage area.
    pub fn duplicate(&self) -> (res: DamageArea)
        ensures
            same_damage_area(res, *self),
    {
        DamageArea {
            damage_amount: self.damage_amount,
            area: self.area.duplicate(),
            entity: self.entity,
            duration: self.duration,
            blink: self.blink,
            weapon_stats: self.weapon_stats,
        }
    }
}

/// A visual effect that shows a damage area from a start time for the
/// area's duration.
pub struct DamageEffect {
    pub damage_area: DamageArea,
    /// When the effect starts, in milliseconds.
    pub start_time: u64,
    pub complete: bool,
    pub active_area: AreaWrapper,
    pub active_entity: EntityCharacters,
}

/// `a - b`, held at 0.
pub open spec fn since(a: int, b: int) -> int {
    if a >= b { a - b } else { 0 }
}

/// `f` is the effect `e` advanced to time `now`: before the start it
/// shows nothing; from the start it shows the damage area, and where the
/// area blinks it shows the entity and nothing in turn, one call to the
/// next, until the duration has passed since the start and it is complete.
pub open spec fn effect_updated(e: DamageEffect, f: DamageEffect, now: int) -> bool {
    &&& same_damage_area(f.damage_area, e.damage_area)
    &&& f.start_time == e.start_time
    &&& now < e.start_time ==> (f.active_area matches AreaWrapper::Chaos(c) && c.position_list@.len() == 0)
    &&& now >= e.start_time ==> same_area(f.active_area, e.damage_area.area)
    &&& f.complete == (e.complete || since(now, e.start_time as int) >= e.damage_area.duration)
    &&& f.active_entity == if now < e.start_time {
        EntityCharacters::Empty(plain_style())
    } else if since(now, e.start_time as int) >= e.damage_area.duration || !e.damage_area.blink {
        e.damage_area.entity
    } else if e.active_entity == e.damage_area.entity {
        EntityCharacters::Empty(plain_style())
    } else {
        e.damage_area.entity
    }
}

/// Whether the effect is still running once advanced to `now`.
pub open spec fn effect_live(now: int) -> spec_fn(DamageEffect) -> bool {
    |e: DamageEffect| !(e.complete || since(now, e.start_time as int) >= e.damage_area.duration)
}

impl DamageEffect {
    /// An effect that starts at `now` and shows the whole damage area.
    pub fn from_damage_area(damage_area: DamageArea, now: u64) -> (res: DamageEffect)
        ensures
            same_damage_area(res.damage_area, damage_area),
            res.start_time == now,
            !res.complete,
            same_area(res.active_area, damage_area.area),
            res.active_entity == damage_area.entity,
    {
        let active_area = damage_area.area.duplicate();
        let active_entity = damage_area.entity;
        DamageEffect { damage_area, start_time: now, complete: false, active_area, active_entity }
    }

    /// An effect that deals no damage and shows `entity` over `area` from
    /// `now` for `duration` milliseconds.
    pub fn new(area: AreaWrapper, entity: EntityCharacters, duration: u64, blink: bool, now: u64) -> (res:
        DamageEffect)
        ensures
            res.damage_area.damage_amount == 0,
            same_area(res.damage_area.area, area),
            res.damage_area.entity == entity,
            res.damage_area.duration == duration,
            res.damage_area.blink == blink,
            res.damage_area.weapon_stats is None,
            res.start_time == now,
            !res.complete,
            same_area(res.active_area, area),
            res.active_entity == entity,
    {
        let damage_area = DamageArea {
            damage_amount: 0,
            area: area.duplicate(),
            entity,
            duration,
            blink,
            weapon_stats: None,
        };
        DamageEffect { damage_area, start_time: now, complete: false, active_area: area, active_entity: entity }
    }

    /// Postpones the effect's start by `delay` milliseconds.
    pub fn delay(&mut self, delay: u64)
        requires
            old(self).start_time + delay <= u64::MAX,
        ensures
            final(self).start_time == old(self).start_time + delay,
            same_damage_area(final(self).damage_area, old(self).damage_area),
            final(self).complete == old(self).complete,
            same_area(final(self).active_area, old(self).active_area),
            final(self).active_entity == old(self).active_entity,
    {
        self.start_time = self.start_time + delay;
    }

    /// Advances the effect to `now` (see `effect_updated`): before the start
    /// it shows nothing; from the start it shows the damage area, blinking
    /// from one call to the next where the area blinks, and once the
    /// duration has passed since the start it is complete.
    pub fn update(&mut self, now: u64)
        ensures
            effect_updated(*old(self), *final(self), now as int),
    {
        let was_shown = self.active_entity == self.damage_area.entity;
        if now < self.start_time {
            self.active_area = AreaWrapper::Chaos(ChaosArea::empty());
            self.active_entity = EntityCharacters::Empty(Style::new());
            if self.damage_area.duration == 0 {
                self.complete = true;
            }
        } else {
            self.active_area = self.damage_area.area.duplicate();
            let elapsed = now - self.start_time;
            if elapsed >= self.damage_area.duration {
                self.complete = true;
                self.active_entity = self.damage_area.entity;
            } else if self.damage_area.blink && was_shown {
                self.active_entity = EntityCharacters::Empty(Style::new());
            } else {
                self.active_entity = self.damage_area.entity;
            }
        }
    }

    /// Each position of the area shown now, paired with the entity shown.
    pub fn get_instructions(&self) -> (res: Vec<RenderPosition>)
        requires
            self.active_area.listable(),
        ensures
            res@.len() == self.active_area.positions().len(),
            forall|i: int| 0 <= i < res@.len() ==> #[trigger] res@[i] == RenderPosition(
                self.active_area.positions()[i],
                self.active_entity,
            ),
    {
        let positions = self.active_area.get_positions();
        let mut res: Vec<RenderPosition> = Vec::new();
        let mut i: usize = 0;
        while i < positions.len()
            invariant
                i <= positions@.len(),
                positions@ == self.active_area.positions(),
                res@.len() == i,
                forall|j: int| 0 <= j < i ==> #[trigger] res@[j] == RenderPosition(
                    positions@[j],
                    self.active_entity,
                ),
            decreases positions@.len() - i,
        {
            res.push(RenderPosition(positions[i], self.active_entity));
            i = i + 1;
        }
        res
    }
}

/// A position paired with the entity to draw there.
#[derive(Clone, Copy, Debug, PartialEq, Eq, Structural)]
pub struct RenderPosition(pub Position, pub EntityCharacters);

} // verus!
