use vstd::prelude::*;

verus! {

/// Number of levels the game ships with.
pub const TOTAL_LEVELS: usize = 5;

/// A page of the in-game menu.
#[derive(Clone, Copy, Debug, PartialEq, Eq, Structural)]
pub enum MenuNode {
    MainMenu,
    LevelSelection,
    GameOver,
    GameWon,
}

/// An entry of a menu page.
#[derive(Clone, Copy, Debug, PartialEq, Eq, Structural)]
pub enum MenuItem {
    Play,
    LoadLevel,
    Exit,
    /// Starts the level with this number, from 1.
    Level { number: usize },
    Back,
    Retry,
    ToMainMenu,
    NextLevel,
}

/// What the game has to do after a menu selection.
#[derive(Clone, Copy, Debug, PartialEq, Eq, Structural)]
pub enum MenuCommand {
    /// Stay in the menu.
    Stay,
    /// Enter the game, after loading the given level if there is one.
    Enter { load_level: Option<usize> },
    /// Leave this game for the top-level selection.
    ExitGame,
}

/// The two rows of a page whose highlight changed.
#[derive(Clone, Copy, Debug, PartialEq, Eq, Structural)]
pub struct Repaint {
    pub node: MenuNode,
    pub unselect: MenuItem,
    pub select: MenuItem,
}

/// The entries of a page, top to bottom.
pub open spec fn items_of(node: MenuNode) -> Seq<MenuItem> {
    match node {
        MenuNode::MainMenu => seq![MenuItem::Play, MenuItem::LoadLevel, MenuItem::Exit],
        MenuNode::LevelSelection => seq![
            MenuItem::Level { number: 1 },
            MenuItem::Level { number: 2 },
            MenuItem::Level { number: 3 },
            MenuItem::Level { number: 4 },
            MenuItem::Level { number: 5 },
            MenuItem::Back,
        ],
        MenuNode::GameOver => seq![MenuItem::Retry, MenuItem::ToMainMenu],
        MenuNode::GameWon => seq![MenuItem::NextLevel, MenuItem::ToMainMenu],
    }
}

/// Index of the entry above `i` on a page of `len` entries, wrapping to the bottom.
pub open spec fn index_up(i: nat, len: nat) -> nat {
    if i == 0 {
        (len - 1) as nat
    } else {
        (i - 1) as nat
    }
}

/// Index of the entry below `i` on a page of `len` entries, wrapping to the top.
pub open spec fn index_down(i: nat, len: nat) -> nat {
    if i + 1 >= len {
        0
    } else {
        i + 1
    }
}

/// Number of entries of a page.
pub fn item_count(node: MenuNode) -> (r: usize)
    ensures
        r == items_of(node).len(),
        r >= 2,
{
    match node {
        MenuNode::MainMenu => 3,
        MenuNode::LevelSelection => 6,
        MenuNode::GameOver => 2,
        MenuNode::GameWon => 2,
    }
}

/// The entry at `index` on a page.
pub fn item_at(node: MenuNode, index: usize) -> (r: MenuItem)
    requires
        index < items_of(node).len(),
    ensures
        r == items_of(node)[index as int],
{
    match node {
        MenuNode::MainMenu => if index == 0 {
            MenuItem::Play
        } else if index == 1 {
            MenuItem::LoadLevel
        } else {
            MenuItem::Exit
        },
        MenuNode::LevelSelection => if index < 5 {
            MenuItem::Level { number: index + 1 }
        } else {
            MenuItem::Back
        },
        MenuNode::GameOver => if index == 0 {
            MenuItem::Retry
        } else {
            MenuItem::ToMainMenu
        },
        MenuNode::GameWon => if index == 0 {
            MenuItem::NextLevel
        } else {
            MenuItem::ToMainMenu
        },
    }
}

pub open spec fn label_of(item: MenuItem) -> Seq<char> {
    match item {
        MenuItem::Play => "Play"@,
        MenuItem::LoadLevel => "Load level"@,
        MenuItem::Exit => "Exit"@,
        MenuItem::Level { number } => if number == 1 {
            "Level 1"@
        } else if number == 2 {
            "Level 2"@
        } else if number == 3 {
            "Level 3"@
        } else if number == 4 {
            "Level 4"@
        } else if number == 5 {
            "Level 5"@
        } else {
            "Level"@
        },
        MenuItem::Back => "Back"@,
        MenuItem::Retry => "Retry"@,
        MenuItem::ToMainMenu => "Main Menu"@,
        MenuItem::NextLevel => "Next Level"@,
    }
}

impl MenuItem {
    /// The text of the entry.
    pub fn label(&self) -> (r: &'static str)
        ensures
            r@ == label_of(*self),
    {
        match self {
            MenuItem::Play => "Play",
            MenuItem::LoadLevel => "Load level",
            MenuItem::Exit => "Exit",
            MenuItem::Level { number } => if *number == 1 {
                "Level 1"
            } else if *number == 2 {
                "Level 2"
            } else if *number == 3 {
                "Level 3"
            } else if *number == 4 {
                "Level 4"
            } else if *number == 5 {
                "Level 5"
            } else {
                "Level"
            },
            MenuItem::Back => "Back",
            MenuItem::Retry => "Retry",
            MenuItem::ToMainMenu => "Main Menu",
            MenuItem::NextLevel => "Next Level",
        }
    }
}

/// The cursor of the in-game menu: the page shown, the selected entry, the
/// entry selected before it, and whether the highlight still has to be
/// repainted.
#[derive(Clone, Copy, Debug, PartialEq, Eq, Structural)]
pub struct MenuState {
    pub item_index: usize,
    pub current: MenuItem,
    pub previous: MenuItem,
    pub node: MenuNode,
    pub changed: bool,
}

/// The state after the cursor moved to entry `index` of page `node`.
pub open spec fn moved_to(s: MenuState, index: nat, node: MenuNode) -> MenuState {
    MenuState {
        item_index: index as usize,
        current: items_of(node)[index as int],
        previous: s.current,
        node,
        changed: true,
    }
}

/// The state and command after the selected entry is confirmed, given
/// whether a level is loaded and the number of the last level played.
pub open spec fn selected(s: MenuState, level_loaded: bool, last_level: nat) -> (
    MenuState,
    MenuCommand,
) {
    let to_main = moved_to(s, 0, MenuNode::MainMenu);
    match s.current {
        MenuItem::Play => (
            s,
            MenuCommand::Enter {
                load_level: if level_loaded {
                    None
                } else {
                    Some(1usize)
                },
            },
        ),
        MenuItem::LoadLevel => (moved_to(s, 0, MenuNode::LevelSelection), MenuCommand::Stay),
        MenuItem::Exit => (s, MenuCommand::ExitGame),
        MenuItem::Level { number } => (to_main, MenuCommand::Enter { load_level: Some(number) }),
        MenuItem::Back => (to_main, MenuCommand::Stay),
        MenuItem::Retry => (
            to_main,
            MenuCommand::Enter { load_level: Some(last_level as usize) },
        ),
        MenuItem::ToMainMenu => (to_main, MenuCommand::Stay),
        MenuItem::NextLevel => if last_level >= TOTAL_LEVELS {
            (to_main, MenuCommand::Stay)
        } else {
            (to_main, MenuCommand::Enter { load_level: Some((last_level + 1) as usize) })
        },
    }
}

impl MenuState {
    pub open spec fn wf(&self) -> bool {
        &&& self.item_index < items_of(self.node).len()
        &&& self.current == items_of(self.node)[self.item_index as int]
    }

    /// The cursor on the first entry of the main page.
    pub fn new() -> (r: MenuState)
        ensures
            r.wf(),
            r.node == MenuNode::MainMenu,
            r.item_index == 0,
            r.current == MenuItem::Play,
            r.previous == MenuItem::Play,
            r.changed,
    {
        MenuState {
            item_index: 0,
            current: MenuItem::Play,
            previous: MenuItem::Play,
            node: MenuNode::MainMenu,
            changed: true,
        }
    }

    /// Moves the cursor to entry `index` of page `node`.
    pub fn update(&mut self, index: usize, node: MenuNode)
        requires
            index < items_of(node).len(),
        ensures
            *final(self) == moved_to(*old(self), index as nat, node),
            final(self).wf(),
    {
        let item = item_at(node, index);
        self.previous = self.current;
        self.current = item;
        self.item_index = index;
        self.node = node;
        self.changed = true;
    }

    /// The entries of the page shown.
    pub fn items(&self) -> (r: Vec<MenuItem>)
        ensures
            r@ == items_of(self.node),
    {
        let n = item_count(self.node);
        let mut r: Vec<MenuItem> = Vec::new();
        let mut i: usize = 0;
        while i < n
            invariant
                i <= n,
                n == items_of(self.node).len(),
                r@ =~= items_of(self.node).subrange(0, i as int),
            decreases n - i,
        {
            r.push(item_at(self.node, i));
            i = i + 1;
        }
        r
    }

    /// Moves the cursor one entry up, from the top to the bottom.
    pub fn move_up(&mut self)
        requires
            old(self).wf(),
        ensures
            *final(self) == moved_to(
                *old(self),
                index_up(old(self).item_index as nat, items_of(old(self).node).len()),
                old(self).node,
            ),
            final(self).wf(),
    {
        let n = item_count(self.node);
        let index = if self.item_index == 0 {
            n - 1
        } else {
            self.item_index - 1
        };
        self.update(index, self.node);
    }

    /// Moves the cursor one entry down, from the bottom to the top.
    pub fn move_down(&mut self)
        requires
            old(self).wf(),
        ensures
            *final(self) == moved_to(
                *old(self),
                index_down(old(self).item_index as nat, items_of(old(self).node).len()),
                old(self).node,
            ),
            final(self).wf(),
    {
        let n = item_count(self.node);
        let index = if self.item_index + 1 >= n {
            0
        } else {
            self.item_index + 1
        };
        self.update(index, self.node);
    }

    /// Confirms the selected entry. `level_loaded` tells whether a level is
    /// in play, `last_level` is the number of the last level played.
    pub fn select(&mut self, level_loaded: bool, last_level: usize) -> (r: MenuCommand)
        requires
            old(self).wf(),
        ensures
            (*final(self), r) == selected(*old(self), level_loaded, last_level as nat),
            final(self).wf(),
    {
        match self.current {
            MenuItem::Play => MenuCommand::Enter {
                load_level: if level_loaded {
                    None
                } else {
                    Some(1)
                },
            },
            MenuItem::LoadLevel => {
                self.update(0, MenuNode::LevelSelection);
                MenuCommand::Stay
            },
            MenuItem::Exit => MenuCommand::ExitGame,
            MenuItem::Level { number } => {
                self.update(0, MenuNode::MainMenu);
                MenuCommand::Enter { load_level: Some(number) }
            },
            MenuItem::Back | MenuItem::ToMainMenu => {
                self.update(0, MenuNode::MainMenu);
                MenuCommand::Stay
            },
            MenuItem::Retry => {
                self.update(0, MenuNode::MainMenu);
                MenuCommand::Enter { load_level: Some(last_level) }
            },
            MenuItem::NextLevel => {
                self.update(0, MenuNode::MainMenu);
                if last_level >= TOTAL_LEVELS {
                    MenuCommand::Stay
                } else {
                    MenuCommand::Enter { load_level: Some(last_level + 1) }
                }
            },
        }
    }

    /// The escape key in the menu: backs out of the level selection to the
    /// main page, and does nothing elsewhere. Returns whether it backed out.
    pub fn escape(&mut self) -> (r: bool)
        requires
            old(self).wf(),
        ensures
            r == (old(self).node == MenuNode::LevelSelection),
            r ==> *final(self) == moved_to(*old(self), 0, MenuNode::MainMenu),
            !r ==> *final(self) == *old(self),
            final(self).wf(),
    {
        if self.node == MenuNode::LevelSelection {
            self.update(0, MenuNode::MainMenu);
            true
        } else {
            false
        }
    }

    /// The menu is shown again: the cursor goes back to the first entry.
    pub fn show(&mut self)
        ensures
            *final(self) == moved_to(*old(self), 0, old(self).node),
            final(self).wf(),
    {
        self.update(0, self.node);
    }

    /// All balls were lost: the game-over page is shown.
    pub fn game_over(&mut self)
        ensures
            *final(self) == moved_to(*old(self), 0, MenuNode::GameOver),
            final(self).wf(),
    {
        self.update(0, MenuNode::GameOver);
    }

    /// All bricks were cleared: the game-won page is shown. Returns whether
    /// that was the final level, whose completion message is then revealed.
    pub fn game_won(&mut self, last_level: usize) -> (final_level: bool)
        ensures
            *final(self) == moved_to(*old(self), 0, MenuNode::GameWon),
            final(self).wf(),
            final_level == (last_level == TOTAL_LEVELS),
    {
        self.update(0, MenuNode::GameWon);
        last_level == TOTAL_LEVELS
    }

    /// Hands out the rows whose highlight changed since the last call, if
    /// any, and marks them as painted.
    pub fn take_repaint(&mut self) -> (r: Option<Repaint>)
        ensures
            old(self).changed ==> r == Some(
                Repaint { node: old(self).node, unselect: old(self).previous, select: old(self).current },
            ) && *final(self) == (MenuState { previous: old(self).current, changed: false, ..*old(self) }),
            !old(self).changed ==> r.is_none() && *final(self) == *old(self),
    {
        if self.changed {
            let r = Repaint { node: self.node, unselect: self.previous, select: self.current };
            self.previous = self.current;
            self.changed = false;
            Some(r)
        } else {
            None
        }
    }
}

/// The cursor wraps around: up from the first entry reaches the last, and
/// down from the last entry reaches the first.
pub proof fn lemma_cursor_wraps(len: nat)
    requires
        len >= 1,
    ensures
        index_up(0, len) == len - 1,
        index_down((len - 1) as nat, len) == 0,
{
}

} // verus!
