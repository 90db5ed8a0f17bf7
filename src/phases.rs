use vstd::prelude::*;
use crate::menu::MenuCommand;

verus! {

/// Which game, if any, is running.
#[derive(Clone, Copy, Debug, PartialEq, Eq, Hash, Structural)]
pub enum CurrentGame {
    InMainMenu,
    Breakout,
    Tetris,
}

/// The phase of the breakout game.
#[derive(Clone, Copy, Debug, PartialEq, Eq, Hash, Structural)]
pub enum GamePhase {
    /// Not running; everything it held has been released.
    Exited,
    InMenu,
    InGame,
}

/// Whether the simulation advances, inside `GamePhase::InGame`.
#[derive(Clone, Copy, Debug, PartialEq, Eq, Hash, Structural)]
pub enum PlayPhase {
    Playing,
    Paused,
}

/// The two nested phases of the breakout game.
#[derive(Clone, Copy, Debug, PartialEq, Eq, Structural)]
pub struct Phases {
    pub game: GamePhase,
    pub play: PlayPhase,
}

/// The phases after a menu command, and the game that runs afterwards.
pub open spec fn after_command(p: Phases, cmd: MenuCommand) -> (Phases, CurrentGame) {
    match cmd {
        MenuCommand::Stay => (p, CurrentGame::Breakout),
        MenuCommand::Enter { .. } => (Phases { game: GamePhase::InGame, ..p }, CurrentGame::Breakout),
        MenuCommand::ExitGame => (Phases { game: GamePhase::Exited, ..p }, CurrentGame::InMainMenu),
    }
}

impl Phases {
    /// The phases before the game is entered.
    pub fn new() -> (r: Phases)
        ensures
            r == (Phases { game: GamePhase::Exited, play: PlayPhase::Paused }),
    {
        Phases { game: GamePhase::Exited, play: PlayPhase::Paused }
    }

    /// The game is entered from the top-level selection: its menu opens.
    pub fn enter(&mut self)
        ensures
            *final(self) == (Phases { game: GamePhase::InMenu, play: PlayPhase::Paused }),
    {
        self.game = GamePhase::InMenu;
        self.play = PlayPhase::Paused;
    }

    /// A level was loaded: play starts paused.
    pub fn level_loaded(&mut self)
        ensures
            *final(self) == (Phases { play: PlayPhase::Paused, ..*old(self) }),
    {
        self.play = PlayPhase::Paused;
    }

    /// Escape while playing: play pauses and the menu opens.
    pub fn escape_while_playing(&mut self)
        ensures
            *final(self) == (Phases { game: GamePhase::InMenu, play: PlayPhase::Paused }),
    {
        self.game = GamePhase::InMenu;
        self.play = PlayPhase::Paused;
    }

    /// Input while paused: the action key resumes play, escape opens the menu.
    pub fn input_while_paused(&mut self, action: bool, escape: bool)
        ensures
            final(self).play == (if action {
                PlayPhase::Playing
            } else {
                old(self).play
            }),
            final(self).game == (if escape {
                GamePhase::InMenu
            } else {
                old(self).game
            }),
    {
        if action {
            self.play = PlayPhase::Playing;
        }
        if escape {
            self.game = GamePhase::InMenu;
        }
    }

    /// The game was lost or won: play pauses and the menu opens.
    pub fn game_ended(&mut self)
        ensures
            *final(self) == (Phases { game: GamePhase::InMenu, play: PlayPhase::Paused }),
    {
        self.game = GamePhase::InMenu;
        self.play = PlayPhase::Paused;
    }

    /// Carries out a command of the menu; returns the game that runs next.
    pub fn apply(&mut self, cmd: MenuCommand) -> (r: CurrentGame)
        ensures
            (*final(self), r) == after_command(*old(self), cmd),
    {
        match cmd {
            MenuCommand::Stay => CurrentGame::Breakout,
            MenuCommand::Enter { .. } => {
                self.game = GamePhase::InGame;
                CurrentGame::Breakout
            },
            MenuCommand::ExitGame => {
                self.game = GamePhase::Exited;
                CurrentGame::InMainMenu
            },
        }
    }

    /// Movement and collisions advance.
    pub fn simulation_runs(&self) -> (r: bool)
        ensures
            r == (self.game == GamePhase::InGame && self.play == PlayPhase::Playing),
    {
        self.game == GamePhase::InGame && self.play == PlayPhase::Playing
    }

    /// The menu takes input.
    pub fn menu_runs(&self) -> (r: bool)
        ensures
            r == (self.game == GamePhase::InMenu),
    {
        self.game == GamePhase::InMenu
    }
}

/// An entry of the top-level selection.
#[derive(Clone, Copy, Debug, PartialEq, Eq, Structural)]
pub enum LauncherItem {
    Breakout,
    Tetris,
    Settings,
    Exit,
}

/// What a confirmed entry of the top-level selection asks for.
#[derive(Clone, Copy, Debug, PartialEq, Eq, Structural)]
pub enum LauncherCommand {
    Nothing,
    Run(CurrentGame),
    Quit,
}

pub open spec fn launcher_items() -> Seq<LauncherItem> {
    seq![LauncherItem::Breakout, LauncherItem::Tetris, LauncherItem::Settings, LauncherItem::Exit]
}

/// The cursor of the top-level selection.
#[derive(Clone, Copy, Debug, PartialEq, Eq, Structural)]
pub struct Launcher {
    pub selection_index: usize,
    pub changed: bool,
}

/// Number of entries of the top-level selection.
pub const LAUNCHER_LEN: usize = 4;

impl Launcher {
    pub open spec fn wf(&self) -> bool {
        self.selection_index < LAUNCHER_LEN
    }

    pub fn new() -> (r: Launcher)
        ensures
            r.wf(),
            r.selection_index == 0,
            r.changed,
    {
        Launcher { selection_index: 0, changed: true }
    }

    /// The selected entry.
    pub fn selected(&self) -> (r: LauncherItem)
        requires
            self.wf(),
        ensures
            r == launcher_items()[self.selection_index as int],
    {
        if self.selection_index == 0 {
            LauncherItem::Breakout
        } else if self.selection_index == 1 {
            LauncherItem::Tetris
        } else if self.selection_index == 2 {
            LauncherItem::Settings
        } else {
            LauncherItem::Exit
        }
    }

    /// Moves the cursor one entry up, from the top to the bottom.
    pub fn move_up(&mut self)
        requires
            old(self).wf(),
        ensures
            final(self).wf(),
            final(self).changed,
            final(self).selection_index == crate::menu::index_up(
                old(self).selection_index as nat,
                LAUNCHER_LEN as nat,
            ),
    {
        self.selection_index = if self.selection_index == 0 {
            LAUNCHER_LEN - 1
        } else {
            self.selection_index - 1
        };
        self.changed = true;
    }

    /// Moves the cursor one entry down, from the bottom to the top.
    pub fn move_down(&mut self)
        requires
            old(self).wf(),
        ensures
            final(self).wf(),
            final(self).changed,
            final(self).selection_index == crate::menu::index_down(
                old(self).selection_index as nat,
                LAUNCHER_LEN as nat,
            ),
    {
        self.selection_index = if self.selection_index + 1 >= LAUNCHER_LEN {
            0
        } else {
            self.selection_index + 1
        };
        self.changed = true;
    }

    /// Confirms the selected entry.
    pub fn select(&self) -> (r: LauncherCommand)
        requires
            self.wf(),
        ensures
            r == (match launcher_items()[self.selection_index as int] {
                LauncherItem::Breakout => LauncherCommand::Run(CurrentGame::Breakout),
                LauncherItem::Tetris => LauncherCommand::Run(CurrentGame::Tetris),
                LauncherItem::Settings => LauncherCommand::Nothing,
                LauncherItem::Exit => LauncherCommand::Quit,
            }),
    {
        match self.selected() {
            LauncherItem::Breakout => LauncherCommand::Run(CurrentGame::Breakout),
            LauncherItem::Tetris => LauncherCommand::Run(CurrentGame::Tetris),
            LauncherItem::Settings => LauncherCommand::Nothing,
            LauncherItem::Exit => LauncherCommand::Quit,
        }
    }
}

} // verus!
