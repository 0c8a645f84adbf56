//! Pickups: items on the map that the player collects by stepping on them.
use vstd::prelude::*;
use crate::coords::{AreaWrapper, Position, SquareArea};
use crate::effects::{DamageEffect, same_area};
use crate::entities::{Color, EntityCharacters, Style, plain_style};
use crate::map::{Layer, layer_height, layer_valid, layer_width};
use crate::utils::get_rand_position_on_layer;

verus! {

/// What collecting a pickup does.
#[derive(Clone, Copy, Debug, PartialEq, Eq, Structural)]
pub enum PickupEffect {
    PowerupOrb,
}

/// A power-up orb that the player can collect.
#[derive(Clone, Copy, Debug, PartialEq, Eq, Structural)]
pub struct PowerupOrb {
    /// The visual character of the orb.
    pub entity_char: EntityCharacters,
    /// The position of the orb in the game world.
    pub position: Position,
    pub pickup_effect: PickupEffect,
    pub picked_up: bool,
}

/// The colour that follows `c` in the orb's cycle: light red, yellow,
/// green, blue, magenta, cyan, and back to light red (also from no colour
/// or any other).
pub open spec fn next_orb_color(c: Option<Color>) -> Color {
    match c {
        Some(Color::LightRed) => Color::LightYellow,
        Some(Color::LightYellow) => Color::LightGreen,
        Some(Color::LightGreen) => Color::LightBlue,
        Some(Color::LightBlue) => Color::LightMagenta,
        Some(Color::LightMagenta) => Color::LightCyan,
        _ => Color::LightRed,
    }
}

/// The orb once animated for the tick (see `Pickupable::animate`).
pub open spec fn animated_orb(o: PowerupOrb, tick: u64) -> PowerupOrb {
    if tick % 5 == 0 {
        PowerupOrb {
            entity_char: match o.entity_char {
                EntityCharacters::Orb(s) => EntityCharacters::Orb(Style { fg: Some(next_orb_color(s.fg)), ..s }),
                other => other,
            },
            ..o
        }
    } else {
        o
    }
}

/// The pickup once animated for the tick.
pub open spec fn animated(tick: u64) -> spec_fn(PickupTypes) -> PickupTypes {
    |p: PickupTypes| PickupTypes::PowerupOrb(animated_orb(orb_of(p), tick))
}

/// What can be collected, and what it does.
pub trait Pickupable {
    /// Animates the pickup based on the current game tick.
    fn animate(&mut self, tick: u64);

    /// Marks the pickup collected and says what it does.
    fn on_pickup(&mut self) -> PickupEffect;

    /// Whether the pickup has been collected.
    fn is_picked_up(&self) -> bool;
}

impl PowerupOrb {
    /// A new orb at the position, not collected.
    pub fn new(position: Position) -> (res: PowerupOrb)
        ensures
            res == (PowerupOrb {
                entity_char: EntityCharacters::Orb(plain_style()),
                position,
                pickup_effect: PickupEffect::PowerupOrb,
                picked_up: false,
            }),
    {
        PowerupOrb {
            entity_char: EntityCharacters::Orb(Style::new()),
            position,
            pickup_effect: PickupEffect::PowerupOrb,
            picked_up: false,
        }
    }

    /// The orb's position.
    pub fn get_pos(&self) -> (res: Position)
        ensures
            res == self.position,
    {
        self.position
    }

    /// The entity the orb shows.
    pub fn get_entity_char(&self) -> (res: EntityCharacters)
        ensures
            res == self.entity_char,
    {
        self.entity_char
    }
}

impl Pickupable for PowerupOrb {
    /// On every fifth tick the orb takes the next colour of its cycle (see
    /// `next_orb_color`).
    fn animate(&mut self, tick: u64)
        ensures
            tick % 5 == 0 ==> *final(self) == (PowerupOrb {
                entity_char: match old(self).entity_char {
                    EntityCharacters::Orb(s) => EntityCharacters::Orb(
                        Style { fg: Some(next_orb_color(s.fg)), ..s },
                    ),
                    other => other,
                },
                ..*old(self)
            }),
            tick % 5 != 0 ==> *final(self) == *old(self),
    {
        if tick % 5 != 0 {
            return;
        }
        match self.entity_char {
            EntityCharacters::Orb(s) => {
                let next = match s.fg {
                    Some(Color::LightRed) => Color::LightYellow,
                    Some(Color::LightYellow) => Color::LightGreen,
                    Some(Color::LightGreen) => Color::LightBlue,
                    Some(Color::LightBlue) => Color::LightMagenta,
                    Some(Color::LightMagenta) => Color::LightCyan,
                    _ => Color::LightRed,
                };
                self.entity_char = EntityCharacters::Orb(s.fg(next));
            },
            _ => {},
        }
    }

    fn on_pickup(&mut self) -> (res: PickupEffect)
        ensures
            *final(self) == (PowerupOrb { picked_up: true, ..*old(self) }),
            res == old(self).pickup_effect,
    {
        self.picked_up = true;
        self.pickup_effect
    }

    fn is_picked_up(&self) -> (res: bool)
        ensures
            res == self.picked_up,
    {
        self.picked_up
    }
}

/// The pickups there are.
#[derive(Clone, Copy, Debug, PartialEq, Eq, Structural)]
pub enum PickupTypes {
    PowerupOrb(PowerupOrb),
}

impl PickupTypes {
    /// The pickup inside.
    pub fn get_inner(&self) -> (res: &PowerupOrb)
        ensures
            *self == PickupTypes::PowerupOrb(*res),
    {
        match self {
            PickupTypes::PowerupOrb(orb) => orb,
        }
    }

    /// The pickup's position.
    pub fn get_pos(&self) -> (res: Position)
        ensures
            res == match *self {
                PickupTypes::PowerupOrb(o) => o.position,
            },
    {
        self.get_inner().position
    }

    /// The entity the pickup shows.
    pub fn get_entity_char(&self) -> (res: EntityCharacters)
        ensures
            res == match *self {
                PickupTypes::PowerupOrb(o) => o.entity_char,
            },
    {
        self.get_inner().entity_char
    }
}

/// The orb inside a pickup.
pub open spec fn orb_of(p: PickupTypes) -> PowerupOrb {
    match p {
        PickupTypes::PowerupOrb(o) => o,
    }
}

/// Whether a pickup stays on the map once the character stands at `c`:
/// it is not collected and not at `c`.
pub open spec fn uncollected(c: Position) -> spec_fn(PickupTypes) -> bool {
    |p: PickupTypes| !orb_of(p).picked_up && orb_of(p).position != c
}

/// The pickups on the map, and whether collecting one should open the
/// power-up popup.
pub struct PickupWrangler {
    pub pickups: Vec<PickupTypes>,
    pub start_popup: bool,
}

/// The effect shown when an orb is collected: a faint red wash over the
/// map of the given size for half a second from `now`.
pub open spec fn pickup_flash(f: DamageEffect, width: int, height: int, now: int) -> bool {
    let area = AreaWrapper::Square(
        SquareArea { corner1: Position(0, 0), corner2: Position(width as i32, height as i32) },
    );
    &&& f.damage_area.damage_amount == 0
    &&& f.damage_area.area == area
    &&& f.damage_area.entity == EntityCharacters::AttackWeak(Style { fg: Some(Color::Red), ..plain_style() })
    &&& f.damage_area.duration == 500
    &&& !f.damage_area.blink
    &&& f.damage_area.weapon_stats is None
    &&& f.start_time == now
    &&& !f.complete
    &&& f.active_area == area
    &&& f.active_entity == f.damage_area.entity
}

impl PickupWrangler {
    /// No pickup, no popup asked for.
    pub fn new() -> (res: PickupWrangler)
        ensures
            res.pickups@.len() == 0,
            !res.start_popup,
    {
        PickupWrangler { start_popup: false, pickups: Vec::new() }
    }

    /// Puts an orb somewhere on the layer, unless the player owns the
    /// upgrade that replaces orbs with levels (`owns_levels`).
    pub fn spawn_orb(&mut self, layer: &Layer, owns_levels: bool)
        requires
            layer_valid(layer),
            layer_width(layer) > 0,
        ensures
            final(self).start_popup == old(self).start_popup,
            owns_levels ==> final(self).pickups@ == old(self).pickups@,
            !owns_levels ==> {
                &&& final(self).pickups@.len() == old(self).pickups@.len() + 1
                &&& final(self).pickups@.drop_last() == old(self).pickups@
                &&& ({
                    let o = orb_of(final(self).pickups@.last());
                    &&& o == PowerupOrb {
                        entity_char: EntityCharacters::Orb(plain_style()),
                        position: o.position,
                        pickup_effect: PickupEffect::PowerupOrb,
                        picked_up: false,
                    }
                    &&& 0 <= o.position.0 < layer_width(layer)
                    &&& 0 <= o.position.1 < layer_height(layer)
                })
            },
    {
        if !owns_levels {
            let position = get_rand_position_on_layer(layer);
            self.pickups.push(PickupTypes::PowerupOrb(PowerupOrb::new(position)));
            proof {
                assert(self.pickups@.drop_last() =~= old(self).pickups@);
            }
        }
    }

    /// Collects every pickup the character stands on: each asks for the
    /// power-up popup and shows `pickup_flash` over the map of the given
    /// size; collected pickups are removed.
    pub fn handle_pickups(
        &mut self,
        char_pos: &Position,
        active_damage_effects: &mut Vec<DamageEffect>,
        width: usize,
        height: usize,
        now: u64,
    )
        ensures
            final(self).pickups@ == old(self).pickups@.filter(
                uncollected(*char_pos),
            ),
            final(self).start_popup == (old(self).start_popup || exists|i: int|
                0 <= i < old(self).pickups@.len() && #[trigger] orb_of(old(self).pickups@[i]).position
                    == *char_pos),
            final(active_damage_effects)@.len() >= old(active_damage_effects)@.len(),
            final(active_damage_effects)@.take(old(active_damage_effects)@.len() as int)
                == old(active_damage_effects)@,
            forall|k: int|
                old(active_damage_effects)@.len() <= k < final(active_damage_effects)@.len()
                    ==> pickup_flash(
                    #[trigger] final(active_damage_effects)@[k],
                    width as i32 as int,
                    height as i32 as int,
                    now as int,
                ),
    {
        let ghost orig = self.pickups@;
        let ghost e0 = active_damage_effects@;
        let ghost s0 = self.start_popup;
        let mut kept: Vec<PickupTypes> = Vec::new();
        let mut i: usize = 0;
        while i < self.pickups.len()
            invariant
                i <= self.pickups@.len(),
                self.pickups@ == orig,
                kept@ == orig.take(i as int).filter(
                    uncollected(*char_pos),
                ),
                self.start_popup == (s0 || exists|j: int|
                    0 <= j < i && #[trigger] orb_of(orig[j]).position == *char_pos),
                active_damage_effects@.len() >= e0.len(),
                active_damage_effects@.take(e0.len() as int) == e0,
                forall|k: int|
                    e0.len() <= k < active_damage_effects@.len() ==> pickup_flash(
                        #[trigger] active_damage_effects@[k],
                        width as i32 as int,
                        height as i32 as int,
                        now as int,
                    ),
            decreases orig.len() - i,
        {
            proof {
                reveal_with_fuel(Seq::filter, 1);
                assert(orig.take(i + 1).drop_last() =~= orig.take(i as int));
            }
            let mut orb = *self.pickups[i].get_inner();
            assert(orb == orb_of(orig[i as int]));
            if orb.position == *char_pos {
                let effect = orb.on_pickup();
                match effect {
                    PickupEffect::PowerupOrb => {
                        let area = SquareArea::new(Position(0, 0), Position(width as i32, height as i32));
                        let ghost eb = active_damage_effects@;
                        active_damage_effects.push(
                            DamageEffect::new(
                                AreaWrapper::Square(area),
                                EntityCharacters::AttackWeak(Style::new().fg(Color::Red)),
                                500,
                                false,
                                now,
                            ),
                        );
                        proof {
                            assert(active_damage_effects@.take(e0.len() as int) =~= eb.take(e0.len() as int));
                        }
                        self.start_popup = true;
                    },
                }
            }
            if !orb.picked_up {
                kept.push(PickupTypes::PowerupOrb(orb));
            }
            proof {
                if orb_of(orig[i as int]).position == *char_pos {
                    assert(0 <= i && #[trigger] orb_of(orig[i as int]).position == *char_pos);
                }
                assert(orig.take(i + 1).last() == orig[i as int]);
            }
            i = i + 1;
        }
        assert(orig.take(orig.len() as int) =~= orig);
        self.pickups = kept;
    }

    /// Collects the pickups the character stands on (see `handle_pickups`),
    /// then animates the rest for the tick (see `PowerupOrb::animate`,
    /// given the tick modulo 1000).
    pub fn on_tick(
        &mut self,
        tickcount: u64,
        char_pos: &Position,
        active_damage_effects: &mut Vec<DamageEffect>,
        width: usize,
        height: usize,
        now: u64,
    )
        ensures
            final(self).pickups@ == old(self).pickups@.filter(uncollected(*char_pos)).map_values(
                animated(tickcount % 1000),
            ),
            final(self).start_popup == (old(self).start_popup || exists|i: int|
                0 <= i < old(self).pickups@.len() && #[trigger] orb_of(old(self).pickups@[i]).position
                    == *char_pos),
            final(active_damage_effects)@.len() >= old(active_damage_effects)@.len(),
            final(active_damage_effects)@.take(old(active_damage_effects)@.len() as int)
                == old(active_damage_effects)@,
            forall|k: int|
                old(active_damage_effects)@.len() <= k < final(active_damage_effects)@.len()
                    ==> pickup_flash(
                    #[trigger] final(active_damage_effects)@[k],
                    width as i32 as int,
                    height as i32 as int,
                    now as int,
                ),
    {
        self.handle_pickups(char_pos, active_damage_effects, width, height, now);
        let ghost kept = self.pickups@;
        let ghost sp = self.start_popup;
        let tick = tickcount % 1000;
        let mut i: usize = 0;
        while i < self.pickups.len()
            invariant
                i <= self.pickups@.len(),
                self.pickups@.len() == kept.len(),
                self.start_popup == sp,
                forall|j: int| 0 <= j < i ==> #[trigger] self.pickups@[j] == animated(tick)(kept[j]),
                forall|j: int| i <= j < kept.len() ==> #[trigger] self.pickups@[j] == kept[j],
            decreases self.pickups@.len() - i,
        {
            let mut orb = *self.pickups[i].get_inner();
            orb.animate(tick);
            self.pickups.set(i, PickupTypes::PowerupOrb(orb));
            i = i + 1;
        }
        assert(self.pickups@ =~= kept.map_values(animated(tick)));
    }
}

} // verus!
