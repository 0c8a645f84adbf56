use dispair::coords::{Position, SquareArea};
use dispair::effects::DamageEffect;
use dispair::enemy::{Enemy, EnemyDrops};
use dispair::enemywrangler::{is_multiple_of, EnemyWrangler, ENEMY_CAP};
use dispair::entities::{Color, EntityCharacters, Style};
use dispair::map::{Layer, WorldMap};
use dispair::pickups::{PickupTypes, PickupWrangler, Pickupable, PowerupOrb};
use dispair::sound::SoundEffect;
use dispair::stats::{GameStats, PlayerStats};
use dispair::character::Character;
use dispair::upgrades::PlayerState;
use dispair::utils::{
    can_stand, find_in_2d_enum_vec, get_mut_item_in_2d_enum_vec, get_rand_position_on_edge, get_rand_position_on_layer,
    is_next_to_character, per_sec_to_tick_count_to_u64, trim_string,
};
use dispair::view::get_camera_area;
use dispair::weapons::{levels_fit_check, WeaponKind, WeaponWrapper};
use dispair::charms::CharmWrapper;
use dispair::stats::WeaponStats;
use dispair::widgets::{IconSource, InvIconWidget};

fn plain_layer(w: usize, h: usize) -> Layer {
    let mut rows = Vec::new();
    for _ in 0..h {
        let mut row = Vec::new();
        for _ in 0..w {
            row.push(EntityCharacters::Background1(Style::new()));
        }
        rows.push(row);
    }
    rows
}

#[test]
fn neighbours_are_orthogonal() {
    let c = Position(5, 5);
    assert!(is_next_to_character(&c, &Position(6, 5)));
    assert!(is_next_to_character(&c, &Position(4, 5)));
    assert!(is_next_to_character(&c, &Position(5, 4)));
    assert!(is_next_to_character(&c, &Position(5, 6)));
    assert!(!is_next_to_character(&c, &Position(6, 6)));
    assert!(!is_next_to_character(&c, &Position(5, 5)));
    assert!(!is_next_to_character(&Position(0, 3), &Position(0, 3)));
    assert!(is_next_to_character(&Position(0, 3), &Position(1, 3)));
    assert!(!is_next_to_character(&Position(0, 0), &Position(-3, 1)));
}

#[test]
fn standing_needs_room() {
    assert!(can_stand(10, 10, None, &Position(9, 9)));
    assert!(!can_stand(10, 10, None, &Position(10, 9)));
    assert!(!can_stand(10, 10, None, &Position(-1, 0)));
    assert!(!can_stand(10, 10, Some(&Position(3, 3)), &Position(3, 3)));
    assert!(can_stand(10, 10, Some(&Position(3, 3)), &Position(3, 4)));
}

#[test]
fn ticks_between_rounds_up() {
    assert_eq!(per_sec_to_tick_count_to_u64(1300), 16);
    assert_eq!(per_sec_to_tick_count_to_u64(400), 50);
    assert_eq!(per_sec_to_tick_count_to_u64(1000), 20);
    assert_eq!(per_sec_to_tick_count_to_u64(0), u64::MAX);
}

#[test]
fn item_found_by_row_and_column() {
    let mut rows: Vec<(usize, Vec<(usize, char)>)> = vec![(2, vec![(0, 'a'), (3, 'b')]), (4, vec![(3, 'c')])];
    assert_eq!(find_in_2d_enum_vec(&rows, &Position(3, 2)), Some((0, 1)));
    assert_eq!(find_in_2d_enum_vec(&rows, &Position(3, 4)), Some((1, 0)));
    assert_eq!(find_in_2d_enum_vec(&rows, &Position(1, 2)), None);
    assert_eq!(find_in_2d_enum_vec(&rows, &Position(3, 3)), None);
    assert_eq!(get_mut_item_in_2d_enum_vec(&mut rows, &Position(3, 2)).copied(), Some('b'));
    if let Some(item) = get_mut_item_in_2d_enum_vec(&mut rows, &Position(3, 4)) {
        *item = 'z';
    }
    assert_eq!(rows[1].1[0].1, 'z');
    assert!(get_mut_item_in_2d_enum_vec(&mut rows, &Position(1, 2)).is_none());
    assert_eq!(rows[0].1[1].1, 'b');
}

#[test]
fn strings_trimmed_to_length() {
    assert_eq!(trim_string("Lightning".to_string(), 5), "Light");
    assert_eq!(trim_string("Row".to_string(), 5), "Row");
    assert_eq!(trim_string("Pillar".to_string(), 6), "Pillar");
}

#[test]
fn random_positions_stay_on_layer() {
    let l = plain_layer(7, 4);
    for _ in 0..50 {
        let p = get_rand_position_on_layer(&l);
        assert!(p.0 >= 0 && p.0 < 7 && p.1 >= 0 && p.1 < 4);
        let e = get_rand_position_on_edge(&l);
        assert!(e.0 >= 0 && e.0 < 7 && e.1 >= 0 && e.1 < 4);
        assert!(e.0 == 0 || e.0 == 6 || e.1 == 0 || e.1 == 3);
    }
}

#[test]
fn world_map_alternates_background() {
    let world = WorldMap::new(4, 3);
    assert_eq!(world.map.len(), 3);
    assert_eq!(world.map[0].len(), 4);
}

#[test]
fn camera_centres_and_clamps() {
    let l = plain_layer(100, 50);
    let a = get_camera_area(20, 10, &Position(50, 25), &l);
    assert_eq!(a, SquareArea::new(Position(40, 20), Position(60, 30)));
    let corner = get_camera_area(20, 10, &Position(2, 1), &l);
    assert_eq!(corner, SquareArea::new(Position(0, 0), Position(20, 10)));
    let far = get_camera_area(20, 10, &Position(99, 49), &l);
    assert_eq!(far, SquareArea::new(Position(80, 40), Position(100, 50)));
    let wide = get_camera_area(200, 10, &Position(50, 25), &l);
    assert_eq!(wide, SquareArea::new(Position(0, 20), Position(100, 30)));
}

#[test]
fn orb_cycles_colours_every_fifth_tick() {
    let mut orb = PowerupOrb::new(Position(1, 1));
    orb.animate(3);
    assert_eq!(orb.get_entity_char(), EntityCharacters::Orb(Style::new()));
    let order = [
        Color::LightRed,
        Color::LightYellow,
        Color::LightGreen,
        Color::LightBlue,
        Color::LightMagenta,
        Color::LightCyan,
        Color::LightRed,
    ];
    for c in order {
        orb.animate(10);
        assert_eq!(orb.get_entity_char(), EntityCharacters::Orb(Style::new().fg(c)));
    }
    assert!(!orb.is_picked_up());
}

#[test]
fn orb_collected_where_character_stands() {
    let mut wrangler = PickupWrangler::new();
    wrangler.pickups.push(PickupTypes::PowerupOrb(PowerupOrb::new(Position(2, 2))));
    wrangler.pickups.push(PickupTypes::PowerupOrb(PowerupOrb::new(Position(5, 1))));
    let mut effects: Vec<DamageEffect> = Vec::new();
    wrangler.handle_pickups(&Position(3, 3), &mut effects, 10, 6, 100);
    assert_eq!(wrangler.pickups.len(), 2);
    assert!(!wrangler.start_popup);
    assert!(effects.is_empty());
    wrangler.handle_pickups(&Position(2, 2), &mut effects, 10, 6, 100);
    assert_eq!(wrangler.pickups.len(), 1);
    assert_eq!(wrangler.pickups[0].get_pos(), Position(5, 1));
    assert!(wrangler.start_popup);
    assert_eq!(effects.len(), 1);
    assert_eq!(effects[0].damage_area.duration, 500);
    assert_eq!(effects[0].start_time, 100);
    assert_eq!(effects[0].damage_area.entity, EntityCharacters::AttackWeak(Style::new().fg(Color::Red)));
}

#[test]
fn orb_spawns_unless_levels_owned() {
    let l = plain_layer(8, 5);
    let mut wrangler = PickupWrangler::new();
    wrangler.spawn_orb(&l, true);
    assert!(wrangler.pickups.is_empty());
    wrangler.spawn_orb(&l, false);
    assert_eq!(wrangler.pickups.len(), 1);
    let p = wrangler.pickups[0].get_pos();
    assert!(p.0 >= 0 && p.0 < 8 && p.1 >= 0 && p.1 < 5);
}

#[test]
fn sound_files_by_roll() {
    assert_eq!(SoundEffect::Hit.file_for_roll(7), "001_HIT.wav");
    assert_eq!(SoundEffect::Flash.get_file_name(), "002_FLASH.wav");
    assert_eq!(SoundEffect::EnemyKill.file_for_roll(0), "010_KILL_1.wav");
    assert_eq!(SoundEffect::EnemyKill.file_for_roll(3), "011_KILL_2.wav");
    assert_eq!(SoundEffect::EnemyKill.file_for_roll(5), "012_KILL_3.wav");
    assert_eq!(SoundEffect::EnemyKill.file_for_roll(8), "013_KILL_5.wav");
    assert_eq!(SoundEffect::EnemyKill.file_for_roll(9), "014_KILL_7.wav");
    assert!(SoundEffect::EnemyKill.get_file_name().starts_with("01"));
}

#[test]
fn icons_show_first_letter() {
    let mut w = WeaponWrapper::Lightning(None);
    w.populate_inner(WeaponStats::default());
    let icon = InvIconWidget::new(&w);
    assert_eq!(icon.level, 1);
    assert_eq!(icon.inner_text(), "L");
    let mut c = CharmWrapper::HypeTime(None);
    c.populate_inner();
    let charm_icon = InvIconWidget::for_charm(&c);
    assert_eq!(charm_icon.level, 1);
    assert_eq!(charm_icon.inner_text(), "H");
    assert!(matches!(icon.source, IconSource::Weapon(WeaponWrapper::Lightning(Some(_)))));
    assert!(matches!(charm_icon.source, IconSource::Charm(CharmWrapper::HypeTime(Some(_)))));
    let empty = InvIconWidget { source: IconSource::Charm(c), level: 0, title: String::new() };
    assert_eq!(empty.inner_text(), " ");
}

#[test]
fn wrangler_starts_empty_with_default_rates() {
    let w = EnemyWrangler::new(&GameStats::default());
    assert!(w.enemies.is_empty());
    assert_eq!(w.enemy_move_ticks, 16);
    assert_eq!(w.enemy_spawn_ticks, 50);
    assert_eq!(w.enemy_health, 2);
    assert_eq!(w.enemy_damage, 1);
    assert!(w.get_enemy_positions().is_empty());
}

#[test]
fn spawned_enemies_stand_on_edges() {
    let l = plain_layer(12, 9);
    let mut w = EnemyWrangler::new(&GameStats::default());
    for _ in 0..40 {
        w.spawn_enemy(&l);
    }
    assert!(!w.enemies.is_empty());
    assert!(w.enemies.len() <= 40 && w.enemies.len() <= ENEMY_CAP);
    for p in w.get_enemy_positions() {
        assert!(p.0 == 0 || p.0 == 11 || p.1 == 0 || p.1 == 8);
    }
}

#[test]
fn multiples_of_tick_counts() {
    assert!(is_multiple_of(0, 5));
    assert!(is_multiple_of(10, 5));
    assert!(!is_multiple_of(11, 5));
    assert!(is_multiple_of(0, 0));
    assert!(!is_multiple_of(3, 0));
}

#[test]
fn dead_enemies_leave_their_drops() {
    let l = plain_layer(10, 10);
    let mut w = EnemyWrangler::new(&GameStats::default());
    let mut dead = Enemy::new(Position(1, 1), 1, 2, EnemyDrops { gold: 3, xp: 2 });
    dead.take_damage(5);
    w.enemies.push(dead);
    w.enemies.push(Enemy::new(Position(4, 4), 1, 2, EnemyDrops { gold: 1, xp: 0 }));
    let mut effects: Vec<DamageEffect> = Vec::new();
    let drops = w.process_enemy_effects(&l, &mut effects, 1, 0);
    assert_eq!(drops, vec![EnemyDrops { gold: 3, xp: 2 }]);
    assert_eq!(w.enemies.len(), 1);
    assert_eq!(w.enemies[0].get_pos(), Position(4, 4));
    assert!(effects.is_empty());
}

#[test]
fn quiet_tick_only_clears_the_dead() {
    let l = plain_layer(12, 9);
    let mut w = EnemyWrangler::new(&GameStats::default());
    let mut dead = Enemy::new(Position(0, 3), 1, 2, EnemyDrops { gold: 4, xp: 1 });
    dead.take_damage(9);
    w.enemies.push(dead);
    w.enemies.push(Enemy::new(Position(11, 3), 1, 2, EnemyDrops { gold: 1, xp: 0 }));
    let player = PlayerState::from_tree(&vec![]);
    let mut character = Character::new(&player, 0);
    character.set_pos(Position(5, 5));
    let mut effects: Vec<DamageEffect> = Vec::new();
    // Tick 1 is neither a spawn tick (every 50) nor a move tick (every 16).
    let drops = w.on_tick(1, &mut character, &l, &mut effects, &PlayerStats::default(), 12, 9, 0);
    assert_eq!(drops, vec![EnemyDrops { gold: 4, xp: 1 }]);
    assert_eq!(w.get_enemy_positions(), vec![Position(11, 3)]);
    let mut empty = EnemyWrangler::new(&GameStats::default());
    let drops = empty.on_tick(50, &mut character, &l, &mut effects, &PlayerStats::default(), 12, 9, 0);
    assert!(drops.is_empty());
    assert_eq!(empty.enemies.len(), 1);
}

#[test]
fn wide_weapon_still_fires_from_the_corner() {
    let l = plain_layer(12, 9);
    let mut player = PlayerState::from_tree(&vec![]);
    player.stats.weapon_stats.size = 0x5000_0000;
    let mut character = Character::new(&player, 0);
    character.set_pos(Position(0, 0));
    let enemies: Vec<Enemy> = vec![];
    let (areas, effects) = character.attack(&l, &enemies, 1000, 0);
    assert_eq!(areas.len(), 2);
    assert_eq!(effects.len(), 2);
    // FLASH: base damage 2, held to the layer.
    assert_eq!(areas[0].damage_amount, 2);
    assert!(areas[0].duration > 0);
}

#[test]
fn levels_fit_up_to_the_edge_of_i32() {
    let mut stats = WeaponStats::default();
    stats.damage_flat_boost = i32::MAX - 6;
    let mut pillar = WeaponWrapper::Pillar(None);
    pillar.populate_inner(stats);
    assert_eq!(pillar.get_inner().base_damage, i32::MAX - 3);
    assert!(levels_fit_check(WeaponKind::Pillar, pillar.get_inner(), 1, 3));
    assert!(levels_fit_check(WeaponKind::Pillar, pillar.get_inner(), 1, 5));
    stats.damage_flat_boost = i32::MAX - 5;
    let mut over = WeaponWrapper::Pillar(None);
    over.populate_inner(stats);
    assert!(!levels_fit_check(WeaponKind::Pillar, over.get_inner(), 1, 3));
    assert!(levels_fit_check(WeaponKind::Pillar, over.get_inner(), 1, 2));
    let mut lightning = WeaponWrapper::Lightning(None);
    let mut wide = WeaponStats::default();
    wide.size = 0x3fff_fffe;
    lightning.populate_inner(wide);
    assert!(levels_fit_check(WeaponKind::Lightning, lightning.get_inner(), 1, 4));
    assert!(!levels_fit_check(WeaponKind::Lightning, lightning.get_inner(), 1, 5));
}
