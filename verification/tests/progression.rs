use dispair::charms::{CharmKind, CharmWrapper};
use dispair::level::Level;
use dispair::powerup::{Poweruppable, PowerupTypes, PowerupUpgrade};
use dispair::stats::{Inventory, Stats};
use dispair::weapons::{get_strongest_weapon, WeaponKind, WeaponWrapper};
use dispair::stats::WeaponStats;

#[test]
fn level_starts_empty() {
    let level = Level::new();
    assert_eq!(level.get_level(), 0);
    assert_eq!(level.get_progress_percentage(), 0);
}

#[test]
fn level_up_resets_xp_and_raises_need() {
    let mut level = Level::new();
    level.add_xp(100);
    assert_eq!(level.update(), Some(1));
    assert_eq!(level.get_level(), 1);
    assert_eq!(level.get_progress_percentage(), 0);
    level.add_xp(75);
    // 75 of 150 needed
    assert_eq!(level.get_progress_percentage(), 50);
    assert_eq!(level.update(), None);
}

#[test]
fn level_progress_exact_percent() {
    let mut level = Level::new();
    level.add_xp(29);
    assert_eq!(level.get_progress_percentage(), 29);
    level.add_xp(1000);
    assert_eq!(level.get_progress_percentage(), 100);
}

#[test]
fn level_xp_saturates() {
    let mut level = Level::new();
    level.add_xp(u128::MAX);
    level.add_xp(5);
    assert_eq!(level.get_progress_percentage(), 100);
}

#[test]
fn inventory_add_and_sub() {
    let mut inv = Inventory::new();
    inv.add_gold(30);
    assert_eq!(inv.gold, 30);
    inv.add_gold(u128::MAX);
    assert_eq!(inv.gold, u128::MAX);
    let a = Inventory { gold: 10 };
    let b = Inventory { gold: 25 };
    assert_eq!(b.sub(a).gold, 15);
    assert_eq!(a.sub(b).gold, 0);
}

#[test]
fn powerup_upgrade_upper_cases_its_name() {
    let p = PowerupUpgrade::new("flash", "desc".to_string(), 1, 2, PowerupTypes::Weapon);
    assert_eq!(p.get_name(), "FLASH");
    assert_eq!(p.get_desc(), "desc");
    assert_eq!(p.get_current_level(), 1);
    assert_eq!(p.get_new_level(), 2);
    assert_eq!(p.get_powerup_type(), PowerupTypes::Weapon);
}

#[test]
fn init_weapon_offers_new_method() {
    let p = PowerupUpgrade::init_weapon(WeaponWrapper::Lightning(None));
    assert_eq!(p.name, "LIGHTNING");
    assert_eq!(p.desc, "New METHOD: LIGHTNING");
    assert_eq!(p.curr_level, 0);
    assert_eq!(p.new_level, 1);
    assert_eq!(p.powerup_type, PowerupTypes::Weapon);
}

#[test]
fn init_charm_offers_new_charm() {
    let p = PowerupUpgrade::init_charm(CharmWrapper::HypeTime(None));
    assert_eq!(p.name, "HYPE TIME CHARM");
    assert_eq!(p.desc, "New CHARM: HYPE TIME CHARM");
    assert_eq!(p.powerup_type, PowerupTypes::Charm);
}

#[test]
fn weapon_new_and_damage() {
    let mut w = WeaponWrapper::Flash(None);
    w.populate_inner(WeaponStats::default());
    assert_eq!(w.get_damage(), 2);
    assert_eq!(w.get_inner().stats.size, 1);
    let mut r = WeaponWrapper::Row(None);
    let mut stats = WeaponStats::default();
    stats.damage_flat_boost = 3;
    r.populate_inner(stats);
    assert_eq!(r.get_damage(), 9);
    assert_eq!(r.get_inner().stats.size, 0);
}

#[test]
fn flash_upgrades_to_level_five() {
    let mut w = WeaponWrapper::Flash(None);
    w.populate_inner(WeaponStats::default());
    let p = PowerupUpgrade::new("FLASH", String::new(), 1, 5, PowerupTypes::Weapon);
    w.upgrade_self(&p);
    let inner = w.get_inner();
    // base 2 + 1 + 2 = 5, scalar 1.0 + 0.25 + 0.75 = 2.0
    assert_eq!(inner.base_damage, 5);
    assert_eq!(inner.damage_scalar, 2000);
    assert_eq!(w.get_damage(), 10);
    assert_eq!(inner.stats.size, 2);
    assert_eq!(inner.stats.level, 5);
    assert!(inner.element.is_some());
    let burn = inner.stats.procs.burn.unwrap();
    assert_eq!(burn.chance, 80);
    // honage 1.0: size ceil(1.0), damage ceil(0.25)
    assert_eq!(burn.debuff.stats.size, Some(1));
    assert_eq!(burn.debuff.stats.damage, Some(1));
}

#[test]
fn upgrade_that_does_not_raise_changes_nothing() {
    let mut w = WeaponWrapper::Pillar(None);
    w.populate_inner(WeaponStats::default());
    let before = *w.get_inner();
    let p = PowerupUpgrade::new("PILLAR", String::new(), 3, 2, PowerupTypes::Weapon);
    w.upgrade_self(&p);
    assert_eq!(*w.get_inner(), before);
}

#[test]
fn lightning_doubles_bounces_at_five() {
    let mut w = WeaponWrapper::Lightning(None);
    w.populate_inner(WeaponStats::default());
    let p = PowerupUpgrade::new("LIGHTNING", String::new(), 1, 5, PowerupTypes::Weapon);
    w.upgrade_self(&p);
    // size 1, then +1 +1 +1, then doubled
    assert_eq!(w.get_inner().stats.size, 8);
    let charge = w.get_inner().stats.procs.charge.unwrap();
    assert_eq!(charge.chance, 20);
    assert_eq!(charge.debuff.stats.size, Some(3));
}

#[test]
fn weapon_names_and_parsing() {
    assert_eq!(WeaponWrapper::Row(None).name(), "ROW");
    assert!(matches!(WeaponWrapper::from_str("Pillar"), Some(WeaponWrapper::Pillar(None))));
    assert!(matches!(WeaponWrapper::from_str("PILLAR"), Some(WeaponWrapper::Pillar(None))));
    assert!(WeaponWrapper::from_str("pillar").is_none());
    assert!(WeaponWrapper::Flash(None) == WeaponWrapper::Flash(None));
    assert!(WeaponWrapper::Flash(None) != WeaponWrapper::Row(None));
    assert_eq!(WeaponWrapper::iter().len(), 4);
    assert_eq!(WeaponWrapper::Flash(None).kind(), WeaponKind::Flash);
}

#[test]
fn weapon_descriptions() {
    let w = WeaponWrapper::Flash(None);
    assert_eq!(w.upgrade_desc(3), "Increase base damage by 2");
    assert_eq!(w.upgrade_desc(9), "");
    assert_eq!(WeaponWrapper::Row(None).upgrade_desc(3), "Increase damage by 2.");
}

#[test]
fn next_upgrade_until_max_level() {
    let mut w = WeaponWrapper::Pillar(None);
    w.populate_inner(WeaponStats::default());
    let next = w.get_next_upgrade(1, 5).unwrap();
    assert_eq!(next.name, "PILLAR");
    assert_eq!(next.desc, "Increase size by 1, increase base damage by 1");
    assert_eq!(next.curr_level, 1);
    assert_eq!(next.new_level, 2);
    let p = PowerupUpgrade::new("PILLAR", String::new(), 1, 5, PowerupTypes::Weapon);
    w.upgrade_self(&p);
    assert!(w.get_next_upgrade(1, 5).is_none());
}

#[test]
fn flash_max_level_follows_game_stats() {
    let mut w = WeaponWrapper::Flash(None);
    w.populate_inner(WeaponStats::default());
    assert_eq!(w.get_max_level(7), 7);
    assert_eq!(WeaponWrapper::Row(None).get_max_level(7), 5);
    assert!(w.get_next_upgrade(1, 1).is_none());
}

#[test]
fn strongest_weapon_last_on_tie() {
    let mut a = WeaponWrapper::Flash(None);
    a.populate_inner(WeaponStats::default());
    let mut b = WeaponWrapper::Row(None);
    b.populate_inner(WeaponStats::default());
    let mut c = WeaponWrapper::Pillar(None);
    c.populate_inner(WeaponStats::default());
    let ws = vec![a, b, c];
    assert_eq!(get_strongest_weapon(&ws).unwrap().kind(), WeaponKind::Row);
    let ws2: Vec<WeaponWrapper> = vec![];
    assert!(get_strongest_weapon(&ws2).is_none());
    let mut d = WeaponWrapper::Lightning(None);
    let mut s = WeaponStats::default();
    s.damage_flat_boost = 2;
    d.populate_inner(s);
    let ws3 = vec![c, d];
    // both deal 3: the last wins
    assert_eq!(get_strongest_weapon(&ws3).unwrap().kind(), WeaponKind::Lightning);
}

#[test]
fn charm_upgrade_and_stats() {
    let mut c = CharmWrapper::DamageMult(None);
    c.populate_inner();
    assert_eq!(c.get_inner().stat_boost, 1250);
    let mut stats = Stats::default();
    c.manipulate_stats(&mut stats);
    assert_eq!(stats.player_stats.damage_mult, 1250);
    let p = PowerupUpgrade::new("DAMAGE MULTIPLIER CHARM", String::new(), 1, 5, PowerupTypes::Charm);
    c.upgrade_self(&p);
    assert_eq!(c.get_inner().stat_boost, 4750);
    assert_eq!(c.get_level(), 5);
}

#[test]
fn hype_time_charm_sets_seconds() {
    let mut c = CharmWrapper::HypeTime(None);
    c.populate_inner();
    let p = PowerupUpgrade::new("HYPE TIME CHARM", String::new(), 1, 3, PowerupTypes::Charm);
    c.upgrade_self(&p);
    assert_eq!(c.get_inner().stat_boost, 150);
    let mut stats = Stats::default();
    c.manipulate_stats(&mut stats);
    assert_eq!(stats.game_stats.time_offset, 150);
}

#[test]
fn charm_names_and_offers() {
    let mut c = CharmWrapper::AttackSpeed(None);
    c.populate_inner();
    assert_eq!(c.get_name(), "Attack Speed Charm");
    assert_eq!(c.name(), "ATTACK SPEED CHARM");
    let next = c.get_next_upgrade(1, 5).unwrap();
    assert_eq!(next.name, "ATTACK SPEED CHARM");
    assert_eq!(next.desc, "Increase Attack Speed Mult by 0.25");
    assert!(matches!(CharmWrapper::from_str("Hype Time Charm"), Some(CharmWrapper::HypeTime(None))));
    assert!(CharmWrapper::from_str("hype").is_none());
    assert_eq!(CharmWrapper::AttackSpeed(None).get_max_level(9), 5);
    assert_eq!(CharmWrapper::HypeTime(None).get_max_level(9), 9);
    assert_eq!(CharmWrapper::iter().len(), 3);
    assert_eq!(CharmWrapper::DamageMult(None).kind(), CharmKind::DamageMult);
}

fn describe<P: Poweruppable>(slot: &P, max_level: i32) -> (String, i32, Option<(i32, i32)>) {
    let next = slot.get_next_upgrade(1, max_level).map(|p| (p.curr_level, p.new_level));
    (slot.get_name(), slot.get_level(), next)
}

#[test]
fn weapons_and_charms_offer_alike() {
    let mut w = WeaponWrapper::Pillar(None);
    w.populate_inner(WeaponStats::default());
    let mut c = CharmWrapper::HypeTime(None);
    c.populate_inner();
    assert_eq!(describe(&w, 5), ("PILLAR".to_string(), 1, Some((1, 2))));
    assert_eq!(describe(&c, 5), ("Hype Time Charm".to_string(), 1, Some((1, 2))));
    assert_eq!(describe(&c, 1), ("Hype Time Charm".to_string(), 1, None));
    assert_eq!(w.get_powerup_type(), PowerupTypes::Weapon);
    assert_eq!(c.get_powerup_type(), PowerupTypes::Charm);
    assert_eq!(c.get_max_level(3), 3);
    assert_eq!(CharmWrapper::AttackSpeed(None).get_max_level(3), 5);
}

#[test]
fn pillar_gains_base_damage_as_described() {
    let mut p = WeaponWrapper::Pillar(None);
    p.populate_inner(WeaponStats::default());
    let up = PowerupUpgrade::new("PILLAR", String::new(), 1, 3, PowerupTypes::Weapon);
    p.upgrade_self(&up);
    assert_eq!(p.get_level(), 3);
    assert_eq!(p.get_damage(), 6);
}

#[test]
fn pillar_rises_to_the_edge_of_i32() {
    let mut stats = WeaponStats::default();
    stats.damage_flat_boost = i32::MAX - 6;
    let mut p = WeaponWrapper::Pillar(None);
    p.populate_inner(stats);
    let up = PowerupUpgrade::new("PILLAR", String::new(), 1, 3, PowerupTypes::Weapon);
    p.upgrade_self(&up);
    assert_eq!(p.get_level(), 3);
    assert_eq!(p.get_inner().base_damage, i32::MAX);
    assert_eq!(p.get_inner().stats.damage_flat_boost, i32::MAX - 3);
}
