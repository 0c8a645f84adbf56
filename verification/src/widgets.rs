//! The small pieces of the screen that show what the player carries.
use vstd::prelude::*;
use crate::powerup::Poweruppable;
use crate::charms::{CharmWrapper, charm_inner_of, charm_kind_of, charm_title};
use crate::weapons::{WeaponWrapper, inner_of, kind_of, weapon_name};

verus! {

/// The item an icon shows.
#[derive(Clone, Copy, Debug)]
pub enum IconSource {
    Weapon(WeaponWrapper),
    Charm(CharmWrapper),
}

/// An icon for a weapon or charm carried: the item, its level and its name.
pub struct InvIconWidget {
    pub source: IconSource,
    pub level: i32,
    pub title: String,
}

/// The text drawn inside an icon for a title: its first character where
/// that is a single byte (ASCII), otherwise a space.
pub open spec fn icon_text(title: Seq<char>) -> Seq<char> {
    if title.len() > 0 && (title[0] as u32) < 128 {
        seq![title[0]]
    } else {
        seq![' ']
    }
}

impl InvIconWidget {
    /// The icon of a weapon carried: its level and name.
    pub fn new(source: &WeaponWrapper) -> (res: InvIconWidget)
        requires
            inner_of(*source) is Some,
        ensures
            res.source == IconSource::Weapon(*source),
            res.level == inner_of(*source).unwrap().stats.level,
            res.title@ == weapon_name(kind_of(*source)),
    {
        InvIconWidget { source: IconSource::Weapon(*source), level: source.get_level(), title: source.get_name() }
    }

    /// The icon of a charm carried: its level and its own name.
    pub fn for_charm(source: &CharmWrapper) -> (res: InvIconWidget)
        requires
            charm_inner_of(*source) is Some,
        ensures
            res.source == IconSource::Charm(*source),
            res.level == charm_inner_of(*source).unwrap().level,
            res.title@ == charm_title(charm_kind_of(*source)),
    {
        InvIconWidget { source: IconSource::Charm(*source), level: source.get_level(), title: source.get_name() }
    }

    /// The text drawn inside the icon (see `icon_text`).
    pub fn inner_text(&self) -> (res: String)
        ensures
            res@ == icon_text(self.title@),
    {
        proof {
            reveal_strlit(" ");
        }
        let title = self.title.as_str();
        if title.unicode_len() > 0 {
            let c = title.get_char(0);
            if (c as u32) < 128 {
                let first = title.substring_char(0, 1);
                proof {
                    assert(first@ =~= seq![self.title@[0]]);
                }
                return first.to_owned();
            }
        }
        " ".to_owned()
    }
}

} // verus!
