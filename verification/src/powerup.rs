//! Power-ups: the offers to raise a weapon or a charm from one level to
//! another.
use vstd::prelude::*;
use vstd::string::*;
use crate::weapons::{WeaponWrapper, kind_of, weapon_name, lemma_weapon_name_upper};
use crate::charms::{CharmWrapper, charm_kind_of, charm_name, lemma_charm_title_upper};

verus! {

/// What a power-up raises.
#[derive(Clone, Copy, Debug, PartialEq, Eq, Structural, Hash)]
pub enum PowerupTypes {
    Weapon,
    Charm,
}

/// The upper-case form of a string that `str::to_uppercase` gives.
pub uninterp spec fn uppercase_of(s: Seq<char>) -> Seq<char>;

/// The upper-case form of an ASCII character.
pub open spec fn ascii_upper_char(c: char) -> char {
    if 'a' <= c && c <= 'z' { ((c as int) - 32) as char } else { c }
}

/// The upper-case form of an ASCII string.
pub open spec fn ascii_upper(s: Seq<char>) -> Seq<char> {
    s.map_values(|c: char| ascii_upper_char(c))
}

/// The string in upper case, by `str::to_uppercase`. The contract names the
/// result and, as std documents for ASCII letters, says that an ASCII
/// string has each of `a` to `z` raised to `A` to `Z` and every other
/// character kept; beyond ASCII the Unicode mapping is left unsaid.
#[verifier::external_body]
pub(crate) fn to_uppercase(s: &str) -> (res: String)
    ensures
        res@ == uppercase_of(s@),
        vstd::string::is_ascii(s) ==> res@ == ascii_upper(s@),
{
    s.to_uppercase()
}

/// A weapon or charm slot as a power-up: its name, the kind of power-up,
/// what each level says, its level and highest level, the offer of its
/// next levels, and taking an offer.
pub trait Poweruppable {
    /// The slot holds its item.
    spec fn filled(&self) -> bool;

    /// The level of the item in the slot.
    spec fn level_spec(&self) -> int;

    /// The highest level the item reaches where the run allows `m`.
    spec fn max_level_spec(&self, m: int) -> int;

    /// The item's numbers leave room for its level-ups from level `from` to
    /// `to`.
    spec fn room_to_rise(&self, from: int, to: int) -> bool;

    /// The name the item's offers go by.
    fn get_name(&self) -> String;

    /// What the item's offers raise.
    fn get_powerup_type(&self) -> PowerupTypes;

    /// What the offer of level `level` says.
    fn upgrade_desc(&self, level: i32) -> String;

    /// The highest level the item reaches where the run allows `max_level`.
    fn get_max_level(&self, max_level: i32) -> (res: i32)
        ensures
            res == self.max_level_spec(max_level as int),
    ;

    /// The level of the item in the slot.
    fn get_level(&self) -> (res: i32)
        requires
            self.filled(),
        ensures
            res == self.level_spec(),
    ;

    /// The offer to raise the item by `levels_up` levels, from its level to
    /// that plus `levels_up`, or `None` once it has reached its highest
    /// level.
    fn get_next_upgrade(&self, levels_up: i32, max_level: i32) -> (res: Option<PowerupUpgrade>)
        requires
            self.filled(),
            self.level_spec() < self.max_level_spec(max_level as int) ==> i32::MIN <= self.level_spec()
                + levels_up <= i32::MAX,
        ensures
            self.level_spec() >= self.max_level_spec(max_level as int) <==> res is None,
            res matches Some(p) ==> p.curr_level == self.level_spec() && p.new_level == self.level_spec()
                + levels_up,
    ;

    /// Raises the item as the offer says.
    fn upgrade_self(&mut self, powerup: &PowerupUpgrade)
        requires
            old(self).filled(),
            old(self).room_to_rise(powerup.curr_level as int, powerup.new_level as int),
    ;
}

/// An offer to raise a weapon or charm from `curr_level` to `new_level`.
pub struct PowerupUpgrade {
    pub name: String,
    pub desc: String,
    pub new_level: i32,
    pub curr_level: i32,
    pub powerup_type: PowerupTypes,
}

/// What an offer shows: its name, its description, the levels it raises
/// between and what it raises.
pub type OfferView = (Seq<char>, Seq<char>, i32, i32, PowerupTypes);

impl View for PowerupUpgrade {
    type V = OfferView;

    open spec fn view(&self) -> OfferView {
        (self.name@, self.desc@, self.curr_level, self.new_level, self.powerup_type)
    }
}

impl PowerupUpgrade {
    /// A copy of the offer.
    pub fn duplicate(&self) -> (res: PowerupUpgrade)
        ensures
            res@ == self@,
    {
        PowerupUpgrade {
            name: self.name.clone(),
            desc: self.desc.clone(),
            curr_level: self.curr_level,
            new_level: self.new_level,
            powerup_type: self.powerup_type,
        }
    }

    /// An offer under the upper-case form of `name`.
    pub fn new(name: &str, desc: String, curr_level: i32, new_level: i32, powerup_type: PowerupTypes) -> (res:
        PowerupUpgrade)
        ensures
            res.name@ == uppercase_of(name@),
            vstd::string::is_ascii(name) ==> res.name@ == ascii_upper(name@),
            res.desc@ == desc@,
            res.curr_level == curr_level,
            res.new_level == new_level,
            res.powerup_type == powerup_type,
    {
        PowerupUpgrade { name: to_uppercase(name), desc, curr_level, new_level, powerup_type }
    }

    /// The name of what the offer raises.
    pub fn get_name(&self) -> (res: &str)
        ensures
            res@ == self.name@,
    {
        self.name.as_str()
    }

    /// What the offer does.
    pub fn get_desc(&self) -> (res: &str)
        ensures
            res@ == self.desc@,
    {
        self.desc.as_str()
    }

    /// Whether the offer raises a weapon or a charm.
    pub fn get_powerup_type(&self) -> (res: PowerupTypes)
        ensures
            res == self.powerup_type,
    {
        self.powerup_type
    }

    /// The level the offer raises to.
    pub fn get_new_level(&self) -> (res: i32)
        ensures
            res == self.new_level,
    {
        self.new_level
    }

    /// The level the offer raises from.
    pub fn get_current_level(&self) -> (res: i32)
        ensures
            res == self.curr_level,
    {
        self.curr_level
    }
}

impl PowerupUpgrade {
    /// The offer of a new weapon, from level 0 to 1, under its name in
    /// upper case and described as "New METHOD: " and that name.
    pub fn init_weapon(wrapper: WeaponWrapper) -> (res: PowerupUpgrade)
        ensures
            res.name@ == weapon_name(kind_of(wrapper)),
            res.desc@ == "New METHOD: "@ + weapon_name(kind_of(wrapper)),
            res.curr_level == 0,
            res.new_level == 1,
            res.powerup_type == PowerupTypes::Weapon,
    {
        proof {
            lemma_weapon_name_upper(kind_of(wrapper));
        }
        let upper = to_uppercase(wrapper.name());
        let desc = String::from_str("New METHOD: ").concat(upper.as_str());
        PowerupUpgrade::new(upper.as_str(), desc, 0, 1, PowerupTypes::Weapon)
    }

    /// The offer of a new charm, from level 0 to 1, under its name in
    /// upper case and described as "New CHARM: " and that name.
    pub fn init_charm(wrapper: CharmWrapper) -> (res: PowerupUpgrade)
        ensures
            res.name@ == charm_name(charm_kind_of(wrapper)),
            res.desc@ == "New CHARM: "@ + charm_name(charm_kind_of(wrapper)),
            res.curr_level == 0,
            res.new_level == 1,
            res.powerup_type == PowerupTypes::Charm,
    {
        proof {
            lemma_charm_title_upper(charm_kind_of(wrapper));
            lemma_charm_name_upper(charm_kind_of(wrapper));
        }
        let upper = to_uppercase(wrapper.name());
        let desc = String::from_str("New CHARM: ").concat(upper.as_str());
        PowerupUpgrade::new(upper.as_str(), desc, 0, 1, PowerupTypes::Charm)
    }
}

/// What an offer of a power-up shows.
pub trait Powerup {
    /// The name of what the offer raises.
    fn get_name(&self) -> &str;

    /// What the offer does.
    fn get_desc(&self) -> &str;

    /// Whether the offer raises a weapon or a charm.
    fn get_powerup_type(&self) -> PowerupTypes;

    /// The level the offer raises to.
    fn get_new_level(&self) -> i32;

    /// The level the offer raises from.
    fn get_current_level(&self) -> i32;
}

impl Powerup for PowerupUpgrade {
    fn get_name(&self) -> (res: &str)
        ensures
            res@ == self.name@,
    {
        PowerupUpgrade::get_name(self)
    }

    fn get_desc(&self) -> (res: &str)
        ensures
            res@ == self.desc@,
    {
        PowerupUpgrade::get_desc(self)
    }

    fn get_powerup_type(&self) -> (res: PowerupTypes)
        ensures
            res == self.powerup_type,
    {
        self.powerup_type
    }

    fn get_new_level(&self) -> (res: i32)
        ensures
            res == self.new_level,
    {
        self.new_level
    }

    fn get_current_level(&self) -> (res: i32)
        ensures
            res == self.curr_level,
    {
        self.curr_level
    }
}

/// Each charm's menu name is ASCII and already in upper case.
pub proof fn lemma_charm_name_upper(kind: crate::charms::CharmKind)
    ensures
        vstd::utf8::is_ascii_chars(charm_name(kind)),
        ascii_upper(charm_name(kind)) == charm_name(kind),
{
    reveal_strlit("DAMAGE MULTIPLIER CHARM");
    reveal_strlit("HYPE TIME CHARM");
    reveal_strlit("ATTACK SPEED CHARM");
    assert(ascii_upper(charm_name(kind)) =~= charm_name(kind));
}

} // verus!
