use dispair::charms::CharmWrapper;
use dispair::keys::Key;
use dispair::popups::{CarnageReport, PowerupPopup, Selection};
use dispair::powerup::{Poweruppable, PowerupTypes};
use dispair::stats::WeaponStats;
use dispair::upgrade_menu::{breadcrumbs_to_text, cost_label, node_to_list, CostLabel, Goto, MenuCrumb, Shade, UpgradesMenu};
use dispair::upgrades::{get_current_upgrades, CurrentUpgrades, PlayerState, UpgradeNode};
use dispair::weapons::WeaponWrapper;

fn leaf(id: &str, title: &str, cost: Option<u32>, limit: u32, requires: Vec<&str>) -> UpgradeNode {
    UpgradeNode {
        title: title.to_string(),
        description: String::new(),
        id: id.to_string(),
        cost,
        children: None,
        limit,
        requires: requires.into_iter().map(|s| s.to_string()).collect(),
        costscale_override: None,
    }
}

fn folder(id: &str, title: &str, children: Vec<UpgradeNode>) -> UpgradeNode {
    UpgradeNode {
        title: title.to_string(),
        description: String::new(),
        id: id.to_string(),
        cost: None,
        children: Some(children),
        limit: 0,
        requires: vec![],
        costscale_override: None,
    }
}

fn sample_tree() -> Vec<UpgradeNode> {
    vec![
        folder("1", "Bloodlust", vec![leaf("11", "Conform", Some(10), 1, vec![]), leaf("12", "Fury", Some(20), 3, vec!["11"])]),
        leaf("2", "Greed", Some(5), 2, vec![]),
    ]
}

#[test]
fn current_upgrades_cover_whole_tree() {
    let counts = get_current_upgrades(&sample_tree(), CurrentUpgrades::new());
    assert_eq!(counts.get("1"), Some(0));
    assert_eq!(counts.get("11"), Some(0));
    assert_eq!(counts.get("12"), Some(0));
    assert_eq!(counts.get("2"), Some(0));
    assert_eq!(counts.get("3"), None);
}

#[test]
fn fresh_player_owns_nothing_and_can_refresh() {
    let ps = PlayerState::from_tree(&sample_tree());
    assert_eq!(ps.inventory.gold, 0);
    assert_eq!(ps.amount_owned("11"), 0);
    assert!(!ps.upgrade_owned("2"));
    assert!(ps.can_refresh());
}

#[test]
fn mark_size_without_mark_cannot_refresh() {
    let mut ps = PlayerState::from_tree(&vec![]);
    ps.upgrades.insert("312".to_string(), 1);
    assert!(!ps.can_refresh());
    ps.upgrades.insert("311".to_string(), 1);
    assert!(ps.can_refresh());
}

#[test]
fn menu_buys_and_refuses() {
    let mut ps = PlayerState::from_tree(&sample_tree());
    ps.inventory.gold = 12;
    let mut menu = UpgradesMenu::new(ps, sample_tree());
    assert_eq!(menu.goto, Goto::Upgrades);
    assert_eq!(menu.upgrade_selection, Some(0));
    // The folder has no cost.
    assert_eq!(menu.buy_upgrade(0), Err("Upgrade is not purchasable".to_string()));
    // Greed for 5.
    menu.next_selection();
    assert_eq!(menu.buy_upgrade(5), Ok(()));
    assert_eq!(menu.player_state.inventory.gold, 7);
    assert_eq!(menu.player_state.amount_owned("2"), 1);
    assert_eq!(menu.buy_upgrade(8), Err("Not enough money".to_string()));
    assert_eq!(menu.buy_upgrade(7), Ok(()));
    assert_eq!(menu.player_state.inventory.gold, 0);
    assert_eq!(menu.buy_upgrade(0), Err("Upgrade already owned".to_string()));
    menu.next_selection();
    assert_eq!(menu.buy_upgrade(0), Err("No upgrade selected".to_string()));
}

#[test]
fn menu_walks_into_folders_and_back() {
    let ps = PlayerState::from_tree(&sample_tree());
    let mut menu = UpgradesMenu::new(ps, sample_tree());
    assert_eq!(menu.current_layer().len(), 2);
    menu.key_event(Key::Enter, 0);
    assert_eq!(menu.history.len(), 1);
    assert_eq!(menu.history[0].title, "Bloodlust");
    assert_eq!(menu.current_layer().len(), 2);
    assert_eq!(menu.get_selected_node().unwrap().id, "11");
    menu.key_event(Key::Down, 0);
    assert_eq!(menu.get_selected_node().unwrap().id, "12");
    menu.key_event(Key::Esc, 0);
    assert_eq!(menu.history.len(), 0);
    assert_eq!(menu.upgrade_selection, Some(0));
    menu.key_event(Key::Esc, 0);
    assert_eq!(menu.goto, Goto::Menu);
    menu.key_event(Key::Char(' '), 0);
    assert_eq!(menu.goto, Goto::Game);
}

#[test]
fn menu_selection_moves_and_holds() {
    let ps = PlayerState::from_tree(&vec![]);
    let mut menu = UpgradesMenu::new(ps, vec![]);
    menu.prev_selection();
    assert_eq!(menu.upgrade_selection, Some(0));
    menu.upgrade_selection = None;
    menu.prev_selection();
    assert_eq!(menu.upgrade_selection, Some(usize::MAX));
    menu.next_selection();
    assert_eq!(menu.upgrade_selection, Some(usize::MAX));
    menu.upgrade_selection = None;
    menu.next_selection();
    assert_eq!(menu.upgrade_selection, Some(0));
    assert!(menu.get_selected_node().is_none());
    menu.upgrade_selection = None;
    assert!(menu.navigate_into_upgrade().is_none());
}

#[test]
fn list_shades_follow_ownership() {
    let tree = sample_tree();
    let mut ps = PlayerState::from_tree(&tree);
    let children = tree[0].children.as_ref().unwrap();
    let shown = node_to_list(children, &ps);
    // Fury needs Conform, so only Conform is listed.
    assert_eq!(shown.len(), 1);
    assert_eq!(shown[0].0, " Conform");
    assert_eq!(shown[0].1, Shade::Bright);
    ps.upgrades.insert("11".to_string(), 1);
    let shown = node_to_list(children, &ps);
    assert_eq!(shown.len(), 2);
    assert_eq!(shown[0].1, Shade::Dim);
    assert_eq!(shown[1].1, Shade::Bright);
    let top = node_to_list(&tree, &ps);
    assert_eq!(top[0].0, " > Bloodlust");
    assert_eq!(top[0].1, Shade::Bright);
}

#[test]
fn display_titles_mark_folders() {
    let tree = sample_tree();
    assert_eq!(tree[0].get_display_title(), " > Bloodlust");
    assert_eq!(tree[1].get_display_title(), " Greed");
    assert!(tree[0].has_children());
    assert!(!tree[1].has_children());
}

#[test]
fn breadcrumbs_end_bright() {
    let crumbs = vec![
        MenuCrumb { index: 0, title: "Bloodlust".to_string() },
        MenuCrumb { index: 1, title: "Fury".to_string() },
    ];
    let text = breadcrumbs_to_text(&crumbs);
    assert_eq!(text.len(), 3);
    assert_eq!(text[0], ("upgrades".to_string(), false));
    assert_eq!(text[1], ("Bloodlust".to_string(), false));
    assert_eq!(text[2], ("Fury".to_string(), true));
    assert_eq!(breadcrumbs_to_text(&vec![]), vec![("upgrades".to_string(), true)]);
}

#[test]
fn selection_cycles_columns() {
    let mut s = Selection::new();
    assert_eq!(s.selected_cell(), None);
    s.select_first();
    assert_eq!(s.selected_cell(), None);
    s.select_next_column();
    assert_eq!(s.selected_cell(), Some((0, 0)));
    s.select_next_column();
    assert_eq!(s.selected_cell(), Some((0, 1)));
    s.select_previous_column();
    s.select_previous_column();
    assert_eq!(s.selected_cell(), Some((0, 0)));
    let mut t = Selection::new();
    t.select_previous_column();
    assert_eq!(t.column, Some(usize::MAX));
}

#[test]
fn popup_offers_three_distinct_choices() {
    let popup = PowerupPopup::new(&vec![], &vec![], WeaponStats::default(), 5, 5);
    assert_eq!(popup.powerup_choices.len(), 3);
    assert_eq!(popup.selection_state.row, Some(0));
    assert_eq!(popup.selection_state.column, None);
    assert!(!popup.finished);
    for i in 0..3 {
        for j in 0..3 {
            if i != j {
                assert_ne!(popup.powerup_choices[i].name, popup.powerup_choices[j].name);
            }
        }
        assert_eq!(popup.powerup_choices[i].new_level, 1);
    }
}

#[test]
fn popup_with_nothing_left_finishes_at_once() {
    let mut popup = PowerupPopup {
        powerup_choices: vec![],
        selection_state: Selection::new(),
        weapons: vec![],
        charms: vec![],
        base_weapon_stats: WeaponStats::default(),
        finished: false,
    };
    popup.handle_key_event(Key::Enter);
    assert!(popup.finished);
}

#[test]
fn popup_takes_selected_offer() {
    let mut popup = PowerupPopup::new(&vec![], &vec![], WeaponStats::default(), 5, 5);
    popup.handle_key_event(Key::Char('x'));
    assert!(!popup.finished);
    popup.handle_key_event(Key::Right);
    let chosen = popup.powerup_choices[0].name.clone();
    let kind = popup.powerup_choices[0].powerup_type;
    popup.handle_key_event(Key::Enter);
    assert!(popup.finished);
    match kind {
        PowerupTypes::Weapon => {
            assert_eq!(popup.weapons.len(), 1);
            assert_eq!(popup.weapons[0].get_name().to_uppercase(), chosen.to_uppercase());
            assert_eq!(popup.weapons[0].get_level(), 1);
            assert!(popup.charms.is_empty());
        }
        PowerupTypes::Charm => {
            assert_eq!(popup.charms.len(), 1);
            assert_eq!(popup.charms[0].get_name().to_uppercase(), chosen.to_uppercase());
            assert_eq!(popup.charms[0].get_level(), 1);
            assert!(popup.weapons.is_empty());
        }
    }
}

#[test]
fn popup_levels_up_weapon_carried() {
    let mut flash = WeaponWrapper::Flash(None);
    flash.populate_inner(WeaponStats::default());
    let mut popup = PowerupPopup::new(&vec![flash], &vec![], WeaponStats::default(), 5, 0);
    // One weapon at level 1, three not carried: four offers.
    let pos = popup
        .powerup_choices
        .iter()
        .position(|p| p.name.to_uppercase() == "FLASH");
    if let Some(col) = pos {
        assert_eq!(popup.powerup_choices[col].curr_level, 1);
        assert_eq!(popup.powerup_choices[col].new_level, 2);
        popup.selection_state.column = Some(col);
        popup.select_current();
        assert_eq!(popup.weapons.len(), 1);
        assert_eq!(popup.weapons[0].get_level(), 2);
    }
    let mut charm = CharmWrapper::DamageMult(None);
    charm.populate_inner();
    let other = PowerupPopup::new(&vec![], &vec![charm], WeaponStats::default(), 0, 1);
    // The charm carried is at its highest level: it is not offered again.
    assert_eq!(other.powerup_choices.len(), 3);
    for p in &other.powerup_choices {
        assert_eq!(p.curr_level, 0);
        assert_ne!(p.name, "DAMAGE MULTIPLIER CHARM");
    }
}

#[test]
fn carnage_report_counts_gold_earned() {
    let mut before = PlayerState::from_tree(&vec![]);
    before.inventory.gold = 10;
    let mut after = PlayerState::from_tree(&vec![]);
    after.inventory.gold = 25;
    let report = CarnageReport::new(before, after);
    assert_eq!(report.get_diff().inventory.gold, 15);
    let mut poorer = PlayerState::from_tree(&vec![]);
    poorer.inventory.gold = 3;
    let mut richer = PlayerState::from_tree(&vec![]);
    richer.inventory.gold = 9;
    assert_eq!(CarnageReport::new(richer, poorer).get_diff().inventory.gold, 0);
}

#[test]
fn upgrade_current_upgrades_check() {
    let upgrade_tree = sample_tree();
    let current_upgrades = get_current_upgrades(&upgrade_tree, CurrentUpgrades::new());
    println!("Current upgrades: {:?}", current_upgrades.entries);
    assert!(!current_upgrades.entries.is_empty());
}

#[test]
fn enter_buys_a_leaf_and_opens_a_folder() {
    let mut ps = PlayerState::from_tree(&sample_tree());
    ps.inventory.gold = 9;
    let mut menu = UpgradesMenu::new(ps, sample_tree());
    menu.key_event(Key::Down, 0);
    menu.key_event(Key::Enter, 5);
    assert_eq!(menu.player_state.amount_owned("2"), 1);
    assert_eq!(menu.player_state.inventory.gold, 4);
    menu.key_event(Key::Up, 0);
    menu.key_event(Key::Enter, 0);
    assert_eq!(menu.history.len(), 1);
    assert_eq!(menu.upgrade_selection, Some(0));
    assert_eq!(menu.current_layer()[0].id, "11");
}

#[test]
fn selection_keys_move_only_the_selection() {
    let ps = PlayerState::from_tree(&sample_tree());
    let mut menu = UpgradesMenu::new(ps, sample_tree());
    menu.key_event(Key::Enter, 0);
    assert_eq!(menu.history.len(), 1);
    let gold = menu.player_state.inventory.gold;
    menu.key_event(Key::Char('s'), 0);
    assert_eq!(menu.upgrade_selection, Some(1));
    assert_eq!(menu.history.len(), 1);
    assert_eq!(menu.goto, Goto::Upgrades);
    menu.key_event(Key::Up, 0);
    assert_eq!(menu.upgrade_selection, Some(0));
    assert_eq!(menu.history.len(), 1);
    assert_eq!(menu.goto, Goto::Upgrades);
    assert_eq!(menu.player_state.inventory.gold, gold);
    menu.key_event(Key::Char('q'), 0);
    assert_eq!(menu.upgrade_selection, Some(0));
    assert_eq!(menu.history.len(), 1);
    assert_eq!(menu.goto, Goto::Upgrades);
}

#[test]
fn price_line_follows_ownership_and_kind() {
    let ps = PlayerState::from_tree(&vec![]);
    let sale = leaf("x", "X", Some(5), 2, vec![]);
    assert_eq!(cost_label(&sale, 0), CostLabel::Price);
    assert_eq!(cost_label(&sale, 1), CostLabel::Price);
    assert_eq!(cost_label(&sale, 2), CostLabel::Owned);
    let open_folder = folder("f", "F", vec![leaf("y", "Y", Some(1), 1, vec![])]);
    assert_eq!(cost_label(&open_folder, 0), CostLabel::EnterFolder);
    let empty_folder = folder("g", "G", vec![]);
    assert_eq!(cost_label(&empty_folder, 0), CostLabel::Blank);
    let unlimited = leaf("z", "Z", None, 0, vec![]);
    assert_eq!(cost_label(&unlimited, 3), CostLabel::Blank);
    assert_eq!(ps.inventory.gold, 0);
}
