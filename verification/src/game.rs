//! The views of the game once the player has chosen to play: the upgrade
//! menu and a run, and moving from one to the other.
use vstd::prelude::*;
use crate::keys::Key;
use crate::rogue::{Rogue, framed, fresh_run, keyed, lemma_fresh_run_same_player, ticked};
use crate::upgrade_menu::{Goto, UpgradesMenu, menu_keyed};
use crate::upgrades::{PlayerState, UpgradeTree, UpgradeNode, lemma_same_counts, refresh_defined, refreshed_stats, same_player};

verus! {

/// The screen shown: a run or the upgrade menu.
pub enum Screen {
    Game(Rogue),
    Upgrades(UpgradesMenu),
}

impl Screen {
    /// Where the view wants to go next.
    pub open spec fn goto_of(&self) -> Goto {
        match self {
            Screen::Game(r) => r.goto,
            Screen::Upgrades(m) => m.goto,
        }
    }

    /// Where the view wants to go next.
    pub fn get_goto(&self) -> (res: Goto)
        ensures
            res == self.goto_of(),
    {
        match self {
            Screen::Game(r) => r.goto,
            Screen::Upgrades(m) => m.goto,
        }
    }

    /// The player as the view holds it.
    pub open spec fn player_of(&self) -> PlayerState {
        match self {
            Screen::Game(r) => r.player_state,
            Screen::Upgrades(m) => m.player_state,
        }
    }
}

impl Screen {
    /// A copy of the player the screen holds with its stats worked out
    /// again, where its upgrades allow.
    pub fn fresh_player(&self) -> (res: Option<PlayerState>)
        ensures
            ({
                let p = self.player_of();
                match res {
                    Some(f) => {
                        &&& refresh_defined(&p.upgrades)
                        &&& refresh_defined(&f.upgrades)
                        &&& f.stats == refreshed_stats(&f.upgrades)
                        &&& same_player(f, PlayerState { stats: refreshed_stats(&p.upgrades), ..p })
                    },
                    None => !refresh_defined(&p.upgrades),
                }
            }),
    {
        let mut fresh = match self {
            Screen::Game(r) => r.player_state.duplicate(),
            Screen::Upgrades(m) => m.player_state.duplicate(),
        };
        proof {
            lemma_same_counts(&fresh.upgrades, &self.player_of().upgrades);
        }
        if !fresh.can_refresh() {
            return None;
        }
        fresh.refresh();
        Some(fresh)
    }
}

/// What a tick of the game did.
#[derive(Clone, Copy, Debug, PartialEq, Eq, Structural)]
pub enum GameStep {
    /// The view shown took the tick.
    Ticked,
    /// The view asked to go elsewhere: the player's stats were worked out
    /// again and the view it asked for is shown (the main menu is left to
    /// the caller); the player is to be saved.
    Switched,
    /// The view asked to go elsewhere, but the player's upgrades do not add
    /// up to stats (see `refresh_defined`), or not to a run this library can
    /// hold (see `run_possible`); nothing changed.
    Stuck,
}

/// Whether a run can be built for a player with these stats (see
/// `Rogue::new`).
pub open spec fn run_possible(p: PlayerState) -> bool {
    &&& 0 < p.stats.game_stats.width <= 0x4000_0000
    &&& 0 < p.stats.game_stats.height <= 0x4000_0000
    &&& p.stats.weapon_stats.damage_flat_boost <= i32::MAX - 3
    &&& p.stats.weapon_stats.size <= i32::MAX - 1
}

/// Whether a run can be built for a player with these stats.
fn run_fits(p: &PlayerState) -> (res: bool)
    ensures
        res == run_possible(*p),
{
    let g = &p.stats.game_stats;
    let w = &p.stats.weapon_stats;
    0 < g.width && g.width <= 0x4000_0000 && 0 < g.height && g.height <= 0x4000_0000
        && w.damage_flat_boost <= i32::MAX - 3 && w.size <= i32::MAX - 1
}

/// The game: the view shown, the player as last saved, and the upgrade tree
/// (held by the menu while it is shown).
pub struct Game {
    pub view: Screen,
    pub player_state: PlayerState,
    pub upgrade_tree: UpgradeTree,
}

impl Game {
    /// The view is in a state its methods can work with.
    pub open spec fn wf(&self) -> bool {
        match self.view {
            Screen::Game(r) => r.wf(),
            Screen::Upgrades(m) => m.wf(),
        }
    }

    /// The upgrade tree, wherever it is held.
    pub open spec fn tree(&self) -> Seq<UpgradeNode> {
        match self.view {
            Screen::Game(_) => self.upgrade_tree@,
            Screen::Upgrades(m) => m.root_upgrade_tree@,
        }
    }

    /// Whether the view shown is the one it wants to be.
    pub open spec fn correct_view(&self) -> bool {
        match self.view {
            Screen::Upgrades(m) => m.goto == Goto::Upgrades,
            Screen::Game(r) => r.goto == Goto::Game,
        }
    }

    /// A game that opens on the upgrade menu over the tree, for the player.
    pub fn new(player_state: PlayerState, upgrade_tree: UpgradeTree) -> (res: Game)
        ensures
            res.wf(),
            res.correct_view(),
            res.tree() == upgrade_tree@,
            same_player(res.player_state, player_state),
            res.view matches Screen::Upgrades(m) && same_player(m.player_state, player_state)
                && m.history@.len() == 0 && m.upgrade_selection == Some(0usize),
    {
        let menu = UpgradesMenu::new(player_state.duplicate(), upgrade_tree);
        Game { view: Screen::Upgrades(menu), player_state, upgrade_tree: Vec::new() }
    }

    /// Whether the view shown is the one it wants to be.
    pub fn is_correct_view(&self) -> (res: bool)
        ensures
            res == self.correct_view(),
    {
        match &self.view {
            Screen::Upgrades(m) => m.goto == Goto::Upgrades,
            Screen::Game(r) => r.goto == Goto::Game,
        }
    }

    /// Where the view shown wants to go next.
    pub fn get_goto(&self) -> (res: Goto)
        ensures
            res == self.view.goto_of(),
    {
        self.view.get_goto()
    }

    /// A copy of the player as last saved.
    pub fn get_player_state(&self) -> (res: PlayerState)
        ensures
            same_player(res, self.player_state),
    {
        self.player_state.duplicate()
    }

    /// A tick at time `now`. Where the view shown is the one it wants to
    /// be, it takes the tick (the menu does nothing with it; a run whose
    /// tick count is at its limit neither). Otherwise the player is taken
    /// from the view and its stats worked out again, and the view asked for
    /// is put up: a fresh menu over the tree, or a run starting at `now`
    /// (the main menu is left to the caller, and the view stays).
    pub fn on_tick(&mut self, now: u64) -> (res: GameStep)
        requires
            old(self).wf(),
        ensures
            final(self).wf(),
            final(self).tree() == old(self).tree(),
            old(self).correct_view() ==> {
                &&& res == GameStep::Ticked
                &&& final(self).player_state == old(self).player_state
                &&& final(self).correct_view()
                &&& (old(self).view is Upgrades ==> final(self).view == old(self).view)
                &&& (old(self).view matches Screen::Game(r) ==> (final(self).view matches Screen::Game(r2) && (
                if r.tickcount < u64::MAX {
                    ticked(r, r2, now)
                } else {
                    r2 == r
                })))
            },
            !old(self).correct_view() ==> {
                let p = old(self).view.player_of();
                let goto = old(self).view.goto_of();
                let fresh = PlayerState { stats: refreshed_stats(&p.upgrades), ..p };
                if !refresh_defined(&p.upgrades) || (goto == Goto::Game && !run_possible(fresh)) {
                    &&& res == GameStep::Stuck
                    &&& *final(self) == *old(self)
                } else {
                    &&& res == GameStep::Switched
                    &&& same_player(final(self).player_state, fresh)
                    &&& goto == Goto::Upgrades ==> (final(self).view matches Screen::Upgrades(m) && {
                        &&& same_player(m.player_state, fresh)
                        &&& m.goto == Goto::Upgrades
                        &&& m.history@.len() == 0
                        &&& m.upgrade_selection == Some(0usize)
                    })
                    &&& goto == Goto::Game ==> (final(self).view matches Screen::Game(r) && fresh_run(r, fresh, now))
                    &&& goto == Goto::Menu ==> final(self).view.goto_of() == Goto::Menu
                    &&& goto != Goto::Menu ==> final(self).correct_view()
                }
            },
    {
        if self.is_correct_view() {
            self.tick_shown(now);
            return GameStep::Ticked;
        }
        let goto = self.view.get_goto();
        let fresh = match self.view.fresh_player() {
            Some(f) => f,
            None => {
                return GameStep::Stuck;
            },
        };
        if goto == Goto::Game && !run_fits(&fresh) {
            return GameStep::Stuck;
        }
        let ghost gf = fresh;
        self.switch_to(goto, fresh, now);
        proof {
            if goto == Goto::Game {
                let p = old(self).view.player_of();
                let v = self.view;
                match v {
                    Screen::Game(r) => {
                        lemma_fresh_run_same_player(
                            r,
                            gf,
                            PlayerState { stats: refreshed_stats(&p.upgrades), ..p },
                            now,
                        );
                    },
                    Screen::Upgrades(_) => {},
                }
            }
        }
        GameStep::Switched
    }

    /// The tick of the screen shown, which is the one it wants to be.
    fn tick_shown(&mut self, now: u64)
        requires
            old(self).wf(),
            old(self).correct_view(),
        ensures
            final(self).wf(),
            final(self).tree() == old(self).tree(),
            final(self).player_state == old(self).player_state,
            final(self).upgrade_tree == old(self).upgrade_tree,
            final(self).correct_view(),
            old(self).view is Upgrades ==> final(self).view == old(self).view,
            old(self).view matches Screen::Game(r) ==> (final(self).view matches Screen::Game(r2) && (if r.tickcount
                < u64::MAX {
                ticked(r, r2, now)
            } else {
                r2 == r
            })),
    {
        match &mut self.view {
            Screen::Game(r) => {
                if r.tickcount < u64::MAX {
                    r.on_tick(now);
                }
            },
            Screen::Upgrades(_) => {},
        }
    }

    /// Puts up the screen `goto` names for the player `fresh`, whose stats
    /// are worked out, keeping the tree.
    fn switch_to(&mut self, goto: Goto, fresh: PlayerState, now: u64)
        requires
            old(self).wf(),
            !old(self).correct_view(),
            goto == old(self).view.goto_of(),
            fresh.stats == refreshed_stats(&fresh.upgrades),
            refresh_defined(&fresh.upgrades),
            goto == Goto::Game ==> run_possible(fresh),
        ensures
            final(self).wf(),
            final(self).tree() == old(self).tree(),
            final(self).player_state == fresh,
            goto == Goto::Upgrades ==> (final(self).view matches Screen::Upgrades(m) && {
                &&& same_player(m.player_state, fresh)
                &&& m.goto == Goto::Upgrades
                &&& m.history@.len() == 0
                &&& m.upgrade_selection == Some(0usize)
            }),
            goto == Goto::Game ==> (final(self).view matches Screen::Game(r) && fresh_run(r, fresh, now)),
            goto == Goto::Menu ==> final(self).view == old(self).view,
    {
        self.player_state = fresh;
        match goto {
            Goto::Upgrades => {
                let mut tree: UpgradeTree = Vec::new();
                std::mem::swap(&mut tree, &mut self.upgrade_tree);
                let menu = UpgradesMenu::new(self.player_state.duplicate(), tree);
                self.view = Screen::Upgrades(menu);
            },
            Goto::Game => {
                let run = Rogue::new(&self.player_state, now);
                let mut shown = Screen::Game(run);
                std::mem::swap(&mut shown, &mut self.view);
                match shown {
                    Screen::Upgrades(m) => {
                        self.upgrade_tree = m.root_upgrade_tree;
                    },
                    Screen::Game(_) => {},
                }
            },
            Goto::Menu => {},
        }
    }

    /// A frame at time `now` for a view of the given size: a run advances
    /// its effects and camera (see `Rogue::on_frame`); the menu does
    /// nothing.
    pub fn on_frame(&mut self, now: u64, view_width: u16, view_height: u16)
        requires
            old(self).wf(),
        ensures
            final(self).wf(),
            final(self).tree() == old(self).tree(),
            final(self).player_state == old(self).player_state,
            final(self).correct_view() == old(self).correct_view(),
            old(self).view is Upgrades ==> final(self).view == old(self).view,
            old(self).view matches Screen::Game(r) ==> (final(self).view matches Screen::Game(r2) && framed(
                r,
                r2,
                now,
                view_width,
                view_height,
            )),
    {
        match &mut self.view {
            Screen::Game(r) => r.on_frame(now, view_width, view_height),
            Screen::Upgrades(_) => {},
        }
    }

    /// Hands a key to the view shown: a run at time `now` (see
    /// `Rogue::key_event`), or the menu, with the cost of the next of the
    /// selected upgrade (see `UpgradesMenu::key_event`).
    pub fn handle_key_event(&mut self, key: Key, next_cost: u32, now: u64)
        requires
            old(self).wf(),
        ensures
            final(self).wf(),
            final(self).tree() == old(self).tree(),
            final(self).player_state == old(self).player_state,
            old(self).view matches Screen::Upgrades(m) ==> (final(self).view matches Screen::Upgrades(m2)
                && menu_keyed(m, m2, key, next_cost)),
            old(self).view matches Screen::Game(r) ==> (final(self).view matches Screen::Game(r2) && keyed(
                r,
                r2,
                key,
                now,
            )),
    {
        match &mut self.view {
            Screen::Game(r) => r.key_event(key, now),
            Screen::Upgrades(m) => m.key_event(key, next_cost),
        }
    }
}

} // verus!
