use std::time::Instant;

use dispair::game::{Game, GameStep, Screen};
use dispair::coords::{Direction, Position};
use dispair::keys::Key;
use dispair::rogue::{scale_gold, GameState, Rogue};
use dispair::upgrade_menu::Goto;
use dispair::upgrades::{PlayerState, UpgradeNode};
use dispair::popups::{PowerupPopup, Selection};
use dispair::powerup::Poweruppable;
use dispair::stats::WeaponStats;
use dispair::weapons::{WeaponKind, WeaponWrapper};

fn big_player() -> PlayerState {
    let mut player_state = PlayerState::from_tree(&vec![]);
    player_state.stats.game_stats.width = 1000;
    player_state.stats.game_stats.height = 1000;
    player_state
}

#[test]
fn rogue_renderspeed() {
    let player_state = big_player();
    let mut rogue_game = Rogue::new(&player_state, 0);
    rogue_game.on_tick(0);
    rogue_game.on_frame(0, 100, 40);
    let start_time = Instant::now();
    let spans = rogue_game.flatten_to_span(None);
    let elapsed = start_time.elapsed().as_millis();
    println!("Renderspeed Time taken: {elapsed}");
    assert_eq!(spans.len(), 1000);
    assert_eq!(spans[0].len(), 1000);
}

#[test]
fn updated_renderspeed() {
    let player_state = big_player();
    let mut rogue_game = Rogue::new(&player_state, 0);
    let start_time = Instant::now();
    for step in 1..=3u64 {
        rogue_game.on_tick(step * 50);
        rogue_game.on_frame(step * 50, 100, 40);
        let spans = rogue_game.flatten_to_span(None);
        assert_eq!(spans.len(), 1000);
    }
    let elapsed = start_time.elapsed().as_millis();
    println!("UpdateRenderspeed Time taken: {elapsed}");
}

#[test]
fn new_run_starts_in_play() {
    let player_state = PlayerState::from_tree(&vec![]);
    let game = Rogue::new(&player_state, 7);
    assert_eq!(game.game_state, GameState::Play);
    assert_eq!(game.goto, Goto::Game);
    assert_eq!(game.tickcount, 0);
    assert_eq!(game.start_time, 7);
    assert_eq!(game.width, 20);
    assert_eq!(game.height, 6);
    assert_eq!(game.timer, 10_000);
    assert!(game.enemy_wrangler.enemies.is_empty());
    assert!(game.carnage_report.is_none());
    assert!(game.powerup_popup.is_none());
    let p = game.get_character_pos();
    assert!(p.0 >= 0 && p.0 < 20 && p.1 >= 0 && p.1 < 6);
}

#[test]
fn escape_ends_run_and_reports() {
    let player_state = PlayerState::from_tree(&vec![]);
    let mut game = Rogue::new(&player_state, 0);
    game.key_event(Key::Esc, 10);
    assert_eq!(game.game_state, GameState::GameOver);
    game.on_tick(20);
    assert!(game.carnage_report.is_some());
    game.key_event(Key::Esc, 30);
    assert_eq!(game.game_state, GameState::Exit);
    assert_eq!(game.goto, Goto::Upgrades);
}

#[test]
fn run_ends_when_time_is_up() {
    let player_state = PlayerState::from_tree(&vec![]);
    let mut game = Rogue::new(&player_state, 0);
    game.on_tick(5_000);
    assert_eq!(game.game_state, GameState::Play);
    assert_eq!(game.tickcount, 1);
    game.on_tick(10_001);
    assert_eq!(game.game_state, GameState::GameOver);
}

#[test]
fn flatten_shows_character_on_top() {
    let player_state = PlayerState::from_tree(&vec![]);
    let game = Rogue::new(&player_state, 0);
    let cells = game.flatten_to_span(None);
    assert_eq!(cells.len(), 6);
    assert_eq!(cells[0].len(), 20);
    let p = game.get_character_pos();
    assert_eq!(cells[p.1 as usize][p.0 as usize], game.character.entitychar);
}

#[test]
fn gold_scaled_by_thousandths() {
    assert_eq!(scale_gold(10, 1000), 10);
    assert_eq!(scale_gold(10, 1500), 15);
    assert_eq!(scale_gold(3, 1500), 4);
}

#[test]
fn game_moves_between_menu_and_run() {
    let tree = vec![UpgradeNode {
        title: "Greed".to_string(),
        description: String::new(),
        id: "2".to_string(),
        cost: Some(5),
        children: None,
        limit: 2,
        requires: vec![],
        costscale_override: None,
    }];
    let mut player = PlayerState::from_tree(&tree);
    player.inventory.gold = 40;
    let mut game = Game::new(player, tree);
    assert!(game.is_correct_view());
    assert_eq!(game.get_goto(), Goto::Upgrades);
    assert_eq!(game.on_tick(0), GameStep::Ticked);
    game.handle_key_event(Key::Enter, 5, 0);
    game.handle_key_event(Key::Char(' '), 5, 0);
    assert!(!game.is_correct_view());
    assert_eq!(game.on_tick(100), GameStep::Switched);
    assert!(game.is_correct_view());
    assert_eq!(game.get_player_state().inventory.gold, 35);
    assert_eq!(game.get_player_state().amount_owned("2"), 1);
    match &game.view {
        Screen::Game(run) => {
            assert_eq!(run.start_time, 100);
            assert_eq!(run.player_state.inventory.gold, 35);
        }
        Screen::Upgrades(_) => panic!("a run should be shown"),
    }
    game.on_frame(150, 80, 24);
    game.handle_key_event(Key::Esc, 0, 200);
    assert_eq!(game.on_tick(250), GameStep::Ticked);
    game.handle_key_event(Key::Esc, 0, 300);
    assert_eq!(game.get_goto(), Goto::Upgrades);
    assert_eq!(game.on_tick(350), GameStep::Switched);
    match &game.view {
        Screen::Upgrades(menu) => {
            assert_eq!(menu.root_upgrade_tree.len(), 1);
            assert_eq!(menu.root_upgrade_tree[0].id, "2");
            assert_eq!(menu.player_state.amount_owned("2"), 1);
        }
        Screen::Game(_) => panic!("the menu should be shown"),
    }
    game.handle_key_event(Key::Esc, 0, 400);
    assert_eq!(game.get_goto(), Goto::Menu);
    assert_eq!(game.on_tick(450), GameStep::Switched);
    assert_eq!(game.get_goto(), Goto::Menu);
}

#[test]
fn game_stuck_on_broken_upgrades() {
    let mut player = PlayerState::from_tree(&vec![]);
    player.upgrades.insert("312".to_string(), 1);
    let mut game = Game::new(player, vec![]);
    game.handle_key_event(Key::Char(' '), 0, 0);
    assert_eq!(game.on_tick(10), GameStep::Stuck);
    assert_eq!(game.get_goto(), Goto::Game);
}

#[test]
fn movement_keys_step_once_the_timeout_has_passed() {
    let player_state = PlayerState::from_tree(&vec![]);
    let mut game = Rogue::new(&player_state, 0);
    game.character.position = Position(5, 3);
    game.key_event(Key::Char('d'), 1000);
    assert_eq!(game.get_character_pos(), Position(6, 3));
    game.key_event(Key::Up, 1001);
    assert_eq!(game.get_character_pos(), Position(6, 3));
    assert_eq!(game.character.facing, Direction::UP);
    game.key_event(Key::Char('a'), 2000);
    assert_eq!(game.get_character_pos(), Position(5, 3));
}

#[test]
fn finished_popup_is_closed_before_the_tick() {
    let player_state = PlayerState::from_tree(&vec![]);
    let mut game = Rogue::new(&player_state, 0);
    let mut row = WeaponWrapper::Row(None);
    row.populate_inner(WeaponStats::default());
    game.game_state = GameState::Paused;
    game.powerup_popup = Some(PowerupPopup {
        powerup_choices: vec![],
        selection_state: Selection::new(),
        weapons: vec![row],
        charms: vec![],
        base_weapon_stats: WeaponStats::default(),
        finished: true,
    });
    game.on_tick(10);
    assert!(game.powerup_popup.is_none());
    assert_eq!(game.game_state, GameState::Play);
    assert_eq!(game.tickcount, 1);
    assert_eq!(game.character.weapons.len(), 1);
    assert_eq!(game.character.weapons[0].get_name().to_uppercase(), "ROW");
    assert_eq!(game.player_state.amount_owned("A"), 1);
}

#[test]
fn new_run_carries_flash_and_pillar_at_level_zero() {
    let player_state = PlayerState::from_tree(&vec![]);
    let game = Rogue::new(&player_state, 3);
    assert_eq!(game.character.weapons.len(), 2);
    assert_eq!(game.character.weapons[0].kind(), WeaponKind::Flash);
    assert_eq!(game.character.weapons[1].kind(), WeaponKind::Pillar);
    assert_eq!(game.character.weapons[0].get_level(), 1);
    assert!(game.character.charms.is_empty());
    assert!(game.character.is_alive);
    assert_eq!(game.character.prev_position, Position(0, 0));
    assert_eq!(game.level.get_level(), 0);
    assert_eq!(game.level.get_progress_percentage(), 0);
    assert!(game.pickup_wrangler.pickups.is_empty());
}

#[test]
fn new_run_places_an_orb_with_upgrade_53() {
    let mut player_state = PlayerState::from_tree(&vec![]);
    player_state.upgrades.insert("53".to_string(), 1);
    let game = Rogue::new(&player_state, 0);
    assert_eq!(game.pickup_wrangler.pickups.len(), 1);
    player_state.upgrades.insert("A".to_string(), 1);
    let levels = Rogue::new(&player_state, 0);
    assert!(levels.pickup_wrangler.pickups.is_empty());
}
