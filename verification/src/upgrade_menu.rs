//! The upgrade menu between runs: walking the upgrade tree and buying
//! upgrades with gold.
use vstd::prelude::*;
use vstd::string::*;
use crate::keys::Key;
use crate::upgrades::{PlayerState, UpgradeNode, UpgradeTree};

verus! {

/// Where closing a view leads.
#[derive(Clone, Copy, Debug, PartialEq, Eq, Structural)]
pub enum Goto {
    Game,
    Menu,
    Upgrades,
}

/// A step into the upgrade tree: the index of the folder entered and its
/// title.
pub struct MenuCrumb {
    pub index: usize,
    pub title: String,
}

pub type MenuHistory = Vec<MenuCrumb>;

/// The indices of the folders entered, in order.
pub open spec fn crumb_path(h: Seq<MenuCrumb>) -> Seq<usize> {
    h.map_values(|c: MenuCrumb| c.index)
}

/// The list of nodes reached from `root` by entering the folders at the
/// indices of `path` in turn, if each is a folder.
pub open spec fn layer_at(root: Seq<UpgradeNode>, path: Seq<usize>) -> Option<Seq<UpgradeNode>>
    decreases path.len(),
{
    if path.len() == 0 {
        Some(root)
    } else {
        match layer_at(root, path.drop_last()) {
            Some(l) => if path.last() < l.len() {
                match l[path.last() as int].children {
                    Some(c) => Some(c@),
                    None => None,
                }
            } else {
                None
            },
            None => None,
        }
    }
}

/// The upgrade menu: the player, the tree, the selected entry, where to go
/// next and the folders entered.
pub struct UpgradesMenu {
    pub player_state: PlayerState,
    pub root_upgrade_tree: UpgradeTree,
    /// The selected entry of the list shown, if any.
    pub upgrade_selection: Option<usize>,
    pub goto: Goto,
    pub history: MenuHistory,
}

/// Whether every requirement of the node is owned.
pub open spec fn has_required(node: UpgradeNode, ps: PlayerState) -> bool {
    forall|i: int| 0 <= i < node.requires@.len() ==> ps.upgrades.count(#[trigger] node.requires@[i]@) > 0
}

/// Whether the player owns all there is to own under the node: every node
/// of a folder, and of a leaf, as many as its limit (a leaf whose
/// requirements are not all owned counts as owned).
pub open spec fn owns_all(node: UpgradeNode, ps: PlayerState) -> bool
    decreases node,
{
    match node.children {
        Some(c) => forall|i: int| 0 <= i < c@.len() ==> owns_all(#[trigger] c@[i], ps),
        None => !has_required(node, ps) || ps.upgrades.count(node.id@) >= node.limit,
    }
}

/// How an entry of the list is shown.
#[derive(Clone, Copy, Debug, PartialEq, Eq, Structural)]
pub enum Shade {
    /// Owned: dimmed.
    Dim,
    /// Available: bright.
    Bright,
}

/// How the node is listed, if at all: dimmed once owned (see `owns_all`
/// for a node without a limit), bright where its requirements are owned,
/// and not at all otherwise.
pub open spec fn listing(node: UpgradeNode, ps: PlayerState) -> Option<Shade> {
    if (node.limit == 0 && owns_all(node, ps)) || (node.limit > 0 && ps.upgrades.count(node.id@)
        >= node.limit) {
        Some(Shade::Dim)
    } else if has_required(node, ps) {
        Some(Shade::Bright)
    } else {
        None
    }
}

/// The listed nodes of a list, in order.
pub open spec fn listed(nodes: Seq<UpgradeNode>, ps: PlayerState) -> Seq<UpgradeNode> {
    nodes.filter(|n: UpgradeNode| listing(n, ps) is Some)
}

/// What the detail pane says of the price of an upgrade.
#[derive(Clone, Copy, Debug, PartialEq, Eq, Structural)]
pub enum CostLabel {
    /// Bought as often as its limit allows.
    Owned,
    /// On sale: its next cost is shown.
    Price,
    /// A folder to enter.
    EnterFolder,
    /// Nothing to say.
    Blank,
}

/// The price line of a node of which `owned` are owned: "owned" once the
/// limit is reached, else the next cost where it is for sale, else a hint
/// to enter a folder with entries, else nothing.
pub open spec fn cost_label_of(node: UpgradeNode, owned: u32) -> CostLabel {
    if node.limit > 0 && owned >= node.limit {
        CostLabel::Owned
    } else if node.cost is Some {
        CostLabel::Price
    } else if node.children matches Some(c) && c@.len() > 0 {
        CostLabel::EnterFolder
    } else {
        CostLabel::Blank
    }
}

/// The price line of a node of which `owned` are owned (see
/// `cost_label_of`).
pub fn cost_label(node: &UpgradeNode, owned: u32) -> (res: CostLabel)
    ensures
        res == cost_label_of(*node, owned),
{
    if node.limit > 0 && owned >= node.limit {
        CostLabel::Owned
    } else if node.cost.is_some() {
        CostLabel::Price
    } else if node.has_children() {
        CostLabel::EnterFolder
    } else {
        CostLabel::Blank
    }
}

impl UpgradesMenu {
    /// The menu is at a list of the tree.
    pub open spec fn wf(&self) -> bool {
        layer_at(self.root_upgrade_tree@, crumb_path(self.history@)) is Some
    }

    /// The list the menu is at.
    pub open spec fn layer(&self) -> Seq<UpgradeNode> {
        layer_at(self.root_upgrade_tree@, crumb_path(self.history@)).unwrap()
    }

    /// A menu over the tree at its top, with the first entry selected.
    pub fn new(player_state: PlayerState, upgrade_tree: UpgradeTree) -> (res: UpgradesMenu)
        ensures
            res.wf(),
            res.player_state == player_state,
            res.root_upgrade_tree@ == upgrade_tree@,
            res.upgrade_selection == Some(0usize),
            res.goto == Goto::Upgrades,
            res.history@.len() == 0,
    {
        let res = UpgradesMenu {
            player_state,
            root_upgrade_tree: upgrade_tree,
            upgrade_selection: Some(0),
            goto: Goto::Upgrades,
            history: Vec::new(),
        };
        assert(crumb_path(res.history@) =~= Seq::<usize>::empty());
        res
    }

    /// The list the menu is at.
    pub fn current_layer(&self) -> (res: &Vec<UpgradeNode>)
        requires
            self.wf(),
        ensures
            res@ == self.layer(),
    {
        let mut layer: &Vec<UpgradeNode> = &self.root_upgrade_tree;
        let mut i: usize = 0;
        while i < self.history.len()
            invariant
                i <= self.history@.len(),
                self.wf(),
                layer_at(self.root_upgrade_tree@, crumb_path(self.history@).take(i as int)) == Some(layer@),
            decreases self.history@.len() - i,
        {
            proof {
                lemma_layer_prefix(
                    self.root_upgrade_tree@,
                    crumb_path(self.history@),
                    (i + 1) as int,
                );
                assert(crumb_path(self.history@).take(i + 1).drop_last() =~= crumb_path(self.history@).take(
                    i as int,
                ));
            }
            let idx = self.history[i].index;
            match &layer[idx].children {
                Some(c) => {
                    layer = c;
                },
                None => {},
            }
            i = i + 1;
        }
        assert(crumb_path(self.history@).take(i as int) =~= crumb_path(self.history@));
        layer
    }

    /// Moves the selection up one (held at 0), or to the last entry where
    /// none is selected (`usize::MAX`, which drawing the list brings back
    /// to its last entry).
    pub fn prev_selection(&mut self)
        ensures
            *final(self) == (UpgradesMenu {
                upgrade_selection: Some(
                    match old(self).upgrade_selection {
                        None => usize::MAX,
                        Some(i) => if i == 0 { 0usize } else { (i - 1) as usize },
                    },
                ),
                ..*old(self)
            }),
    {
        let previous = match self.upgrade_selection {
            None => usize::MAX,
            Some(i) => i.saturating_sub(1),
        };
        self.upgrade_selection = Some(previous);
    }

    /// Moves the selection down one (held at `usize::MAX`), or to the first
    /// entry where none is selected.
    pub fn next_selection(&mut self)
        ensures
            *final(self) == (UpgradesMenu {
                upgrade_selection: Some(
                    match old(self).upgrade_selection {
                        None => 0usize,
                        Some(i) => if i == usize::MAX { i } else { (i + 1) as usize },
                    },
                ),
                ..*old(self)
            }),
    {
        let next = match self.upgrade_selection {
            None => 0,
            Some(i) => i.saturating_add(1),
        };
        self.upgrade_selection = Some(next);
    }

    /// The selected node of the list the menu is at, if the selection lies
    /// in it.
    pub fn get_selected_node(&self) -> (res: Option<&UpgradeNode>)
        requires
            self.wf(),
        ensures
            match self.upgrade_selection {
                Some(i) => if i < self.layer().len() {
                    res == Some(&self.layer()[i as int])
                } else {
                    res is None
                },
                None => res is None,
            },
    {
        match self.upgrade_selection {
            Some(i) => {
                let layer = self.current_layer();
                if i < layer.len() {
                    Some(&layer[i])
                } else {
                    None
                }
            },
            None => None,
        }
    }

    /// Enters the selected folder, noting its index and title; `None`, and
    /// nothing changes, where nothing is selected or the entry is no
    /// folder.
    pub fn navigate_into_upgrade(&mut self) -> (res: Option<()>)
        requires
            old(self).wf(),
            old(self).upgrade_selection matches Some(i) ==> i < old(self).layer().len(),
        ensures
            final(self).wf(),
            final(self).player_state == old(self).player_state,
            final(self).root_upgrade_tree@ == old(self).root_upgrade_tree@,
            final(self).upgrade_selection == old(self).upgrade_selection,
            final(self).goto == old(self).goto,
            match old(self).upgrade_selection {
                Some(i) => if old(self).layer()[i as int].children is Some {
                    &&& res is Some
                    &&& crumb_path(final(self).history@) == crumb_path(old(self).history@).push(i)
                    &&& final(self).history@.last().title@ == old(self).layer()[i as int].title@
                    &&& final(self).layer() == old(self).layer()[i as int].children.unwrap()@
                } else {
                    &&& res is None
                    &&& final(self).history@ == old(self).history@
                },
                None => res is None && final(self).history@ == old(self).history@,
            },
    {
        let selected_index = match self.upgrade_selection {
            Some(i) => i,
            None => {
                return None;
            },
        };
        let layer = self.current_layer();
        if layer[selected_index].children.is_some() {
            let title = layer[selected_index].title.clone();
            let ghost old_path = crumb_path(self.history@);
            self.history.push(MenuCrumb { title, index: selected_index });
            proof {
                assert(crumb_path(self.history@) =~= old_path.push(selected_index));
                assert(crumb_path(self.history@).drop_last() =~= old_path);
            }
            return Some(());
        }
        None
    }

    /// Leaves the folder the menu is in (nothing happens at the top).
    pub fn go_back(&mut self)
        requires
            old(self).wf(),
        ensures
            final(self).wf(),
            final(self).player_state == old(self).player_state,
            final(self).root_upgrade_tree@ == old(self).root_upgrade_tree@,
            final(self).upgrade_selection == old(self).upgrade_selection,
            final(self).goto == old(self).goto,
            old(self).history@.len() > 0 ==> final(self).history@ == old(self).history@.drop_last(),
            old(self).history@.len() == 0 ==> final(self).history@ == old(self).history@,
    {
        let ghost old_path = crumb_path(self.history@);
        let popped = self.history.pop();
        proof {
            if old_path.len() > 0 {
                assert(crumb_path(self.history@) =~= old_path.drop_last());
                lemma_layer_prefix(self.root_upgrade_tree@, old_path, old_path.len() - 1);
                assert(old_path.take(old_path.len() - 1) =~= old_path.drop_last());
            }
        }
    }

    /// Buys one more of the selected upgrade for `next_cost` gold, the cost
    /// of the next one as `UpgradeNode::next_cost` gives it. Fails, and
    /// nothing changes, where nothing is selected, the upgrade has no cost,
    /// as many as its limit are owned, or the gold does not cover the cost.
    pub fn buy_upgrade(&mut self, next_cost: u32) -> (res: Result<(), String>)
        requires
            old(self).wf(),
        ensures
            final(self).wf(),
            buy_outcome(*old(self), *final(self), next_cost, res),
    {
        let (id, cost_is_some, limit) = match self.get_selected_node() {
            Some(node) => (node.id.clone(), node.cost.is_some(), node.limit),
            None => {
                return Err("No upgrade selected".to_owned());
            },
        };
        if !cost_is_some {
            return Err("Upgrade is not purchasable".to_owned());
        }
        let owned = self.player_state.amount_owned(id.as_str());
        if owned >= limit {
            return Err("Upgrade already owned".to_owned());
        } else if next_cost as u128 > self.player_state.inventory.gold {
            return Err("Not enough money".to_owned());
        }
        self.player_state.inventory.gold = self.player_state.inventory.gold - next_cost as u128;
        self.player_state.upgrades.insert(id, owned + 1);
        Ok(())
    }

    /// Reacts to a key: `w` or up and `s` or down move the selection; Enter
    /// enters the selected folder (selecting its first entry) or buys the
    /// selected upgrade for `next_cost` (see `buy_upgrade`); space leaves
    /// for a run; Esc leaves the folder (selecting the first entry) or, at
    /// the top, leaves for the main menu.
    pub fn key_event(&mut self, key: Key, next_cost: u32)
        requires
            old(self).wf(),
        ensures
            final(self).wf(),
            menu_keyed(*old(self), *final(self), key, next_cost),
    {
        match key {
            Key::Char('w') | Key::Up => self.prev_selection(),
            Key::Char('s') | Key::Down => self.next_selection(),
            Key::Enter => {
                let folder = match self.get_selected_node() {
                    Some(node) => Some(node.has_children()),
                    None => None,
                };
                match folder {
                    Some(true) => {
                        self.navigate_into_upgrade();
                        self.upgrade_selection = Some(0);
                    },
                    Some(false) => {
                        let ghost before = *self;
                        let r = self.buy_upgrade(next_cost);
                        assert(buy_outcome(before, *self, next_cost, r));
                    },
                    None => {},
                }
            },
            Key::Char(' ') => self.goto = Goto::Game,
            Key::Esc => {
                if self.history.len() > 0 {
                    self.go_back();
                    self.upgrade_selection = Some(0);
                } else {
                    self.goto = Goto::Menu;
                }
            },
            _ => {},
        }
    }
}

/// `f` is the menu `o` after the key (see `UpgradesMenu::key_event`).
pub open spec fn menu_keyed(o: UpgradesMenu, f: UpgradesMenu, key: Key, next_cost: u32) -> bool {
    &&& f.root_upgrade_tree@ == o.root_upgrade_tree@
    &&& key == Key::Char(' ') ==> f == (UpgradesMenu { goto: Goto::Game, ..o })
    &&& key == Key::Esc && o.history@.len() == 0 ==> f == (UpgradesMenu { goto: Goto::Menu, ..o })
    &&& key == Key::Esc && o.history@.len() > 0 ==> {
        &&& f.history@ == o.history@.drop_last()
        &&& f.upgrade_selection == Some(0usize)
        &&& f.goto == o.goto
    }
    &&& (key == Key::Char('w') || key == Key::Up) ==> f == (UpgradesMenu {
        upgrade_selection: Some(
            match o.upgrade_selection {
                None => usize::MAX,
                Some(i) => if i == 0 { 0usize } else { (i - 1) as usize },
            },
        ),
        ..o
    })
    &&& (key == Key::Char('s') || key == Key::Down) ==> f == (UpgradesMenu {
        upgrade_selection: Some(
            match o.upgrade_selection {
                None => 0usize,
                Some(i) => if i == usize::MAX { i } else { (i + 1) as usize },
            },
        ),
        ..o
    })
    &&& !(key == Key::Char('w') || key == Key::Up || key == Key::Char('s') || key == Key::Down
        || key == Key::Enter || key == Key::Char(' ') || key == Key::Esc) ==> f == o
    &&& key != Key::Enter ==> f.player_state == o.player_state
    &&& key == Key::Enter ==> match o.upgrade_selection {
        Some(i) => if i < o.layer().len() {
            let node = o.layer()[i as int];
            if node.children is Some && node.children.unwrap()@.len() > 0 {
                &&& crumb_path(f.history@) == crumb_path(o.history@).push(i)
                &&& f.history@.last().title@ == node.title@
                &&& f.layer() == node.children.unwrap()@
                &&& f.upgrade_selection == Some(0usize)
                &&& f.player_state == o.player_state
                &&& f.goto == o.goto
            } else {
                exists|r: Result<(), String>| #[trigger] buy_outcome(o, f, next_cost, r)
            }
        } else {
            f == o
        },
        None => f == o,
    }
}

/// `f` and `res` are the menu `o` and the result after buying the selected
/// upgrade for `next_cost` gold (see `UpgradesMenu::buy_upgrade`).
pub open spec fn buy_outcome(o: UpgradesMenu, f: UpgradesMenu, next_cost: u32, res: Result<(), String>) -> bool {
    &&& f.root_upgrade_tree@ == o.root_upgrade_tree@
    &&& f.upgrade_selection == o.upgrade_selection
    &&& f.goto == o.goto
    &&& f.history@ == o.history@
    &&& f.player_state.stats == o.player_state.stats
    &&& ({
        let sel = o.upgrade_selection;
        let ps = o.player_state;
        if !(sel matches Some(i) && i < o.layer().len()) {
            res == Err::<(), String>(res->Err_0) && res->Err_0@ == "No upgrade selected"@
                && f.player_state == ps
        } else {
            let node = o.layer()[sel.unwrap() as int];
            let owned = ps.upgrades.count(node.id@);
            if node.cost is None {
                res is Err && res->Err_0@ == "Upgrade is not purchasable"@ && f.player_state == ps
            } else if owned >= node.limit {
                res is Err && res->Err_0@ == "Upgrade already owned"@ && f.player_state == ps
            } else if next_cost > ps.inventory.gold {
                res is Err && res->Err_0@ == "Not enough money"@ && f.player_state == ps
            } else {
                &&& res is Ok
                &&& f.player_state.inventory.gold == ps.inventory.gold - next_cost
                &&& forall|k: Seq<char>|
                    #[trigger] f.player_state.upgrades.lookup(k) == if k == node.id@ {
                        Some((owned + 1) as u32)
                    } else {
                        ps.upgrades.lookup(k)
                    }
            }
        }
    })
}

/// A prefix of a path that reaches a list reaches a list too.
pub proof fn lemma_layer_prefix(root: Seq<UpgradeNode>, path: Seq<usize>, n: int)
    requires
        layer_at(root, path) is Some,
        0 <= n <= path.len(),
    ensures
        layer_at(root, path.take(n)) is Some,
    decreases path.len(),
{
    if n < path.len() {
        assert(path.drop_last().take(n) =~= path.take(n));
        lemma_layer_prefix(root, path.drop_last(), n);
    } else {
        assert(path.take(n) =~= path);
    }
}

/// Whether the player owns all there is to own under the node (see
/// `owns_all`).
pub fn own_children(upgrade_node: &UpgradeNode, player_state: &PlayerState) -> (res: bool)
    ensures
        res == owns_all(*upgrade_node, *player_state),
    decreases *upgrade_node,
{
    match &upgrade_node.children {
        Some(children) => {
            let mut i: usize = 0;
            while i < children.len()
                invariant
                    i <= children@.len(),
                    upgrade_node.children == Some(*children),
                    forall|j: int| 0 <= j < i ==> owns_all(#[trigger] children@[j], *player_state),
                decreases children@.len() - i,
            {
                proof {
                    let opt = upgrade_node.children;
                    assert(decreases_to!(*upgrade_node => upgrade_node.children));
                    assert(decreases_to!(opt => opt->0));
                    assert(opt->0 == *children);
                    assert(decreases_to!(*children => children@));
                    assert(decreases_to!(children@ => children@[i as int]));
                }
                if !own_children(&children[i], player_state) {
                    return false;
                }
                i = i + 1;
            }
            true
        },
        None => {
            if !have_required(upgrade_node, player_state) {
                return true;
            }
            player_state.amount_owned(upgrade_node.id.as_str()) >= upgrade_node.limit
        },
    }
}

/// Whether every requirement of the node is owned.
pub fn have_required(node: &UpgradeNode, player_state: &PlayerState) -> (res: bool)
    ensures
        res == has_required(*node, *player_state),
{
    let mut i: usize = 0;
    while i < node.requires.len()
        invariant
            i <= node.requires@.len(),
            forall|j: int| 0 <= j < i ==> player_state.upgrades.count(#[trigger] node.requires@[j]@) > 0,
        decreases node.requires@.len() - i,
    {
        if player_state.amount_owned(node.requires[i].as_str()) == 0 {
            return false;
        }
        i = i + 1;
    }
    true
}

/// The entries shown for a list of nodes: each listed node's display
/// title with its shade (see `listing`), in order.
pub fn node_to_list(upgrade_nodes: &Vec<UpgradeNode>, player_state: &PlayerState) -> (res: Vec<(String, Shade)>)
    ensures
        res@.len() == listed(upgrade_nodes@, *player_state).len(),
        forall|k: int|
            0 <= k < res@.len() ==> {
                let n = #[trigger] listed(upgrade_nodes@, *player_state)[k];
                &&& res@[k].0@ == (if n.children is Some { " > "@ } else { " "@ }) + n.title@
                &&& Some(res@[k].1) == listing(n, *player_state)
            },
{
    let mut res: Vec<(String, Shade)> = Vec::new();
    let mut i: usize = 0;
    while i < upgrade_nodes.len()
        invariant
            i <= upgrade_nodes@.len(),
            res@.len() == listed(upgrade_nodes@.take(i as int), *player_state).len(),
            forall|k: int|
                0 <= k < res@.len() ==> {
                    let n = #[trigger] listed(upgrade_nodes@.take(i as int), *player_state)[k];
                    &&& res@[k].0@ == (if n.children is Some { " > "@ } else { " "@ }) + n.title@
                    &&& Some(res@[k].1) == listing(n, *player_state)
                },
        decreases upgrade_nodes@.len() - i,
    {
        proof {
            reveal_with_fuel(Seq::filter, 1);
            assert(upgrade_nodes@.take(i + 1).drop_last() =~= upgrade_nodes@.take(i as int));
        }
        let node = &upgrade_nodes[i];
        let required = have_required(node, player_state);
        let owned = player_state.amount_owned(node.id.as_str());
        let dim = (node.limit == 0 && own_children(node, player_state)) || (node.limit > 0 && owned
            >= node.limit);
        if dim {
            res.push((node.get_display_title(), Shade::Dim));
        } else if required {
            res.push((node.get_display_title(), Shade::Bright));
        }
        i = i + 1;
    }
    assert(upgrade_nodes@.take(i as int) =~= upgrade_nodes@);
    res
}

/// The pieces of the breadcrumb trail of the folders entered: "upgrades",
/// then each folder's title, the last piece highlighted (a trail shows
/// " > " between two pieces).
pub fn breadcrumbs_to_text(breadcrumbs: &Vec<MenuCrumb>) -> (res: Vec<(String, bool)>)
    ensures
        res@.len() == 1 + breadcrumbs@.len(),
        res@[0].0@ == "upgrades"@,
        forall|k: int| 0 <= k < breadcrumbs@.len() ==> res@[k + 1].0@ == (#[trigger] breadcrumbs@[k]).title@,
        forall|k: int| 0 <= k < res@.len() ==> (#[trigger] res@[k]).1 == (k == res@.len() - 1),
{
    let mut res: Vec<(String, bool)> = Vec::new();
    res.push(("upgrades".to_owned(), false));
    let mut i: usize = 0;
    while i < breadcrumbs.len()
        invariant
            i <= breadcrumbs@.len(),
            res@.len() == 1 + i,
            res@[0].0@ == "upgrades"@,
            forall|k: int| 0 <= k < i ==> res@[k + 1].0@ == (#[trigger] breadcrumbs@[k]).title@,
            forall|k: int| 0 <= k < res@.len() ==> !(#[trigger] res@[k]).1,
        decreases breadcrumbs@.len() - i,
    {
        res.push((breadcrumbs[i].title.clone(), false));
        i = i + 1;
    }
    let last = res.len() - 1;
    let ghost prev = res@;
    let (text, _) = res.remove(last);
    res.push((text, true));
    proof {
        assert forall|j: int| 0 <= j < last implies res@[j] == prev[j] by {}
        assert forall|k: int| 0 <= k < breadcrumbs@.len() implies res@[k + 1].0@ == (
        #[trigger] breadcrumbs@[k]).title@ by {
            assert(res@[k + 1].0@ == prev[k + 1].0@);
        }
    }
    res
}

} // verus!
