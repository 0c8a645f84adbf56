use dispair::chain::lightning_path;
use dispair::coords::{AreaWrapper, ChaosArea, Position, SquareArea};
use dispair::debuffs::{Debuff, DebuffStats, DebuffTypes, Proc};
use dispair::effects::{DamageArea, DamageEffect};
use dispair::enemy::{move_to_point_granular, Enemy, EnemyDrops};
use dispair::entities::{Color, EntityCharacters, Style};
use dispair::map::Layer;
use dispair::stats::WeaponStats;

fn layer(w: usize, h: usize) -> Layer {
    let mut rows = Vec::new();
    for _ in 0..h {
        let mut row = Vec::new();
        for _ in 0..w {
            row.push(EntityCharacters::Background1(Style::new()));
        }
        rows.push(row);
    }
    rows
}

fn enemy_at(x: i32, y: i32, health: i32) -> Enemy {
    Enemy::new(Position(x, y), 1, health, EnemyDrops { gold: 3, xp: 2 })
}

fn stats(size: Option<i32>, damage: Option<i32>) -> DebuffStats {
    DebuffStats {
        size,
        damage,
        misc_value: None,
        on_death_effect: false,
        on_tick_effect: false,
        on_damage_effect: false,
    }
}

#[test]
fn enemy_takes_damage_and_dies() {
    let mut e = enemy_at(1, 1, 4);
    e.take_damage(1);
    assert_eq!(e.get_health(), 3);
    assert!(e.is_alive());
    assert_eq!(e.got_hit, (true, 1));
    e.take_damage(2);
    assert_eq!(e.get_health(), 1);
    assert_eq!(e.get_entity_char(), EntityCharacters::Enemy(Style::new().fg(Color::Gray).italic()));
    e.take_damage(5);
    assert!(!e.is_alive());
    e.take_damage(-100);
    assert!(!e.is_alive());
}

#[test]
fn enemy_health_saturates() {
    let mut e = enemy_at(0, 0, i32::MIN + 1);
    e.take_damage(10);
    assert_eq!(e.get_health(), i32::MIN);
}

#[test]
fn sure_proc_lands_once() {
    let mut e = enemy_at(0, 0, 5);
    let mark = Proc {
        chance: 100,
        debuff: Debuff { debuff_type: DebuffTypes::MarkedForExplosion, stats: stats(Some(1), Some(2)), complete: false },
    };
    e.try_proc(&mark);
    e.try_proc(&mark);
    assert_eq!(e.count_debuff(&mark.debuff), 1);
}

#[test]
fn burns_stack_twice_then_ignite() {
    let mut e = enemy_at(0, 0, 5);
    let burn = Proc {
        chance: 100,
        debuff: Debuff { debuff_type: DebuffTypes::FlameBurn, stats: stats(Some(1), Some(1)), complete: false },
    };
    for _ in 0..4 {
        e.apply_proc_roll(&burn, 1);
    }
    assert_eq!(e.debuffs.len(), 3);
    assert_eq!(e.debuffs[2].debuff_type, DebuffTypes::FlameIgnite);
}

#[test]
fn proc_misses_above_chance() {
    let mut e = enemy_at(0, 0, 5);
    let p = Proc {
        chance: 30,
        debuff: Debuff { debuff_type: DebuffTypes::ShockCharge, stats: stats(Some(1), None), complete: false },
    };
    e.apply_proc_roll(&p, 31);
    assert_eq!(e.debuffs.len(), 0);
    e.apply_proc_roll(&p, 30);
    assert_eq!(e.debuffs.len(), 1);
}

#[test]
fn mark_explodes_on_death() {
    let l = layer(10, 10);
    let e = enemy_at(5, 5, 0);
    let mark = Debuff { debuff_type: DebuffTypes::MarkedForExplosion, stats: stats(Some(2), Some(7)), complete: false };
    let area = mark.on_death(&e, &l).unwrap();
    assert_eq!(area.damage_amount, 7);
    assert_eq!(area.duration, 150);
    assert_eq!(area.area.get_bounds(), (3, 3, 7, 7));
    let no_size = Debuff { debuff_type: DebuffTypes::MarkedForExplosion, stats: stats(None, Some(7)), complete: false };
    assert!(no_size.on_death(&e, &l).is_none());
    let burn = Debuff { debuff_type: DebuffTypes::FlameBurn, stats: stats(Some(2), Some(7)), complete: false };
    assert!(burn.on_death(&e, &l).is_none());
}

#[test]
fn burn_hurts_every_twentieth_tick() {
    let l = layer(10, 10);
    let mut e = enemy_at(5, 5, 10);
    let mut burn = Debuff { debuff_type: DebuffTypes::FlameBurn, stats: stats(None, Some(3)), complete: false };
    assert!(burn.on_tick(&mut e, &l, 7).is_none());
    assert_eq!(e.get_health(), 10);
    assert!(burn.on_tick(&mut e, &l, 40).is_none());
    assert_eq!(e.get_health(), 7);
}

#[test]
fn ignite_blows_up_and_clears_burns() {
    let l = layer(10, 10);
    let mut e = enemy_at(1, 1, 10);
    e.debuffs.push(Debuff { debuff_type: DebuffTypes::FlameBurn, stats: stats(None, Some(1)), complete: false });
    let mut ignite = Debuff { debuff_type: DebuffTypes::FlameIgnite, stats: stats(Some(1), Some(2)), complete: false };
    assert!(ignite.on_tick(&mut e, &l, 5).is_none());
    let area = ignite.on_tick(&mut e, &l, 12).unwrap();
    assert!(ignite.complete);
    assert_eq!(e.debuffs.len(), 0);
    assert_eq!(area.damage_amount, 20);
    assert_eq!(area.area.get_bounds(), (0, 0, 2, 2));
    let spread = area.weapon_stats.unwrap().procs.burn.unwrap();
    assert_eq!(spread.chance, 80);
    assert_eq!(spread.debuff.stats.damage, Some(6));
    assert!(ignite.on_tick(&mut e, &l, 18).is_none());
}

#[test]
fn electrocution_wears_off() {
    let l = layer(10, 10);
    let mut e = enemy_at(1, 1, 10);
    let mut shock = Debuff { debuff_type: DebuffTypes::ShockElectrocute, stats: stats(Some(2), None), complete: false };
    shock.on_tick(&mut e, &l, 39);
    assert!(!shock.complete);
    shock.on_tick(&mut e, &l, 40);
    assert!(shock.complete);
}

#[test]
fn charge_discharges_once_hit() {
    let l = layer(20, 20);
    let mut e = enemy_at(2, 2, 10);
    let others = vec![enemy_at(2, 2, 10), enemy_at(6, 2, 10)];
    let mut charge = Debuff { debuff_type: DebuffTypes::ShockCharge, stats: stats(Some(1), Some(1)), complete: false };
    assert!(charge.on_damage(&mut e, &l, &others).is_none());
    e.take_damage(4);
    let area = charge.on_damage(&mut e, &l, &others).unwrap();
    assert!(charge.complete);
    assert_eq!(e.got_hit, (false, 0));
    assert_eq!(area.damage_amount, 4);
    let positions = area.area.get_positions();
    assert_eq!(positions, vec![Position(3, 2), Position(4, 2), Position(5, 2), Position(6, 1)]);
    let electrocute = area.weapon_stats.unwrap().procs.electrocute.unwrap();
    assert_eq!(electrocute.chance, 100);
    assert_eq!(electrocute.debuff.debuff_type, DebuffTypes::ShockElectrocute);
}

#[test]
fn damage_area_hits_only_inside() {
    let mut enemies = vec![enemy_at(1, 1, 5), enemy_at(8, 8, 5)];
    let area = DamageArea {
        damage_amount: 2,
        area: AreaWrapper::Square(SquareArea::new(Position(0, 0), Position(2, 2))),
        entity: EntityCharacters::AttackMist(Style::new()),
        duration: 10,
        blink: false,
        weapon_stats: Some(WeaponStats::default()),
    };
    area.deal_damage(&mut enemies);
    assert_eq!(enemies[0].get_health(), 3);
    assert_eq!(enemies[1].get_health(), 5);
}

#[test]
fn lightning_walks_to_nearest() {
    let enemies = vec![enemy_at(3, 0, 5), enemy_at(0, 9, 5)];
    let path = lightning_path(&enemies, Position(0, 0), 1);
    assert_eq!(path[0], Position(0, 0));
    assert!(path.contains(&Position(3, 0)));
    assert!(!path.contains(&Position(0, 9)));
    assert!(lightning_path(&enemies, Position(0, 0), 0).is_empty());
}

#[test]
fn granular_step_goes_along_larger_distance() {
    let (p, _) = move_to_point_granular(&Position(0, 0), &Position(5, 1), false);
    assert_eq!(p, Position(1, 0));
    let (p, _) = move_to_point_granular(&Position(3, 3), &Position(3, 0), false);
    assert_eq!(p, Position(3, 2));
}

#[test]
fn effect_runs_its_course() {
    let area = AreaWrapper::Chaos(ChaosArea::new(vec![Position(1, 1)]));
    let mut effect = DamageEffect::new(area, EntityCharacters::AttackMist(Style::new()), 100, false, 1000);
    effect.delay(50);
    effect.update(1020);
    assert!(!effect.complete);
    assert!(effect.get_instructions().is_empty());
    effect.update(1100);
    assert!(!effect.complete);
    assert_eq!(effect.get_instructions().len(), 1);
    effect.update(1150);
    assert!(effect.complete);
}

#[test]
fn chaos_area_hits_only_listed_cells() {
    let mut enemies = vec![enemy_at(1, 1, 5), enemy_at(2, 2, 5), enemy_at(3, 3, 5)];
    let area = DamageArea {
        damage_amount: 2,
        area: AreaWrapper::Chaos(ChaosArea::new(vec![Position(1, 1), Position(3, 3)])),
        entity: EntityCharacters::AttackMist(Style::new()),
        duration: 10,
        blink: false,
        weapon_stats: None,
    };
    area.deal_damage(&mut enemies);
    assert_eq!(enemies[0].get_health(), 3);
    assert_eq!(enemies[1].get_health(), 5);
    assert_eq!(enemies[2].get_health(), 3);
}

#[test]
fn blinking_effect_alternates_while_active() {
    let area = AreaWrapper::Chaos(ChaosArea::new(vec![Position(1, 1)]));
    let shown = EntityCharacters::AttackBlackout(Style::new());
    let mut effect = DamageEffect::new(area, shown, 200, true, 1000);
    effect.update(1010);
    let first = effect.active_entity;
    effect.update(1020);
    let second = effect.active_entity;
    assert_ne!(first, second);
    assert!(first == shown || second == shown);
    assert!(first == EntityCharacters::Empty(Style::new()) || second == EntityCharacters::Empty(Style::new()));
    assert!(!effect.complete);
    effect.update(1200);
    assert!(effect.complete);
}

#[test]
fn only_a_live_charge_reacts_to_a_hit() {
    let l = layer(4, 4);
    let mut far = enemy_at(i32::MAX, i32::MAX, 10);
    far.take_damage(3);
    let others = vec![enemy_at(i32::MAX, 0, 10)];
    let mut mark = Debuff { debuff_type: DebuffTypes::MarkedForExplosion, stats: stats(Some(1), Some(1)), complete: false };
    assert!(mark.on_damage(&mut far, &l, &others).is_none());
    assert!(!mark.complete);
    assert_eq!(far.got_hit, (true, 3));
    let mut spent = Debuff { debuff_type: DebuffTypes::ShockCharge, stats: stats(Some(1), Some(1)), complete: true };
    assert!(spent.on_damage(&mut far, &l, &others).is_none());
    assert_eq!(far.got_hit, (true, 3));
}
