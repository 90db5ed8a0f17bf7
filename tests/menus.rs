use retro_games::{
    item_at, item_count, CurrentGame, GamePhase, Launcher, LauncherCommand, MenuCommand, MenuItem,
    MenuNode, MenuState, Phases, PlayPhase, Repaint,
};

#[test]
fn cursor_wraps_both_ways() {
    let mut m = MenuState::new();
    m.move_up();
    assert_eq!(m.item_index, 2);
    assert_eq!(m.current, MenuItem::Exit);
    m.move_down();
    assert_eq!(m.item_index, 0);
    assert_eq!(m.current, MenuItem::Play);
    m.move_down();
    assert_eq!(m.current, MenuItem::LoadLevel);
}

#[test]
fn pages_and_labels() {
    assert_eq!(item_count(MenuNode::LevelSelection), 6);
    assert_eq!(item_at(MenuNode::LevelSelection, 2), MenuItem::Level { number: 3 });
    assert_eq!(item_at(MenuNode::LevelSelection, 5).label(), "Back");
    assert_eq!(MenuItem::Level { number: 4 }.label(), "Level 4");
    assert_eq!(MenuItem::NextLevel.label(), "Next Level");
    let mut m = MenuState::new();
    m.game_over();
    assert_eq!(m.items(), vec![MenuItem::Retry, MenuItem::ToMainMenu]);
}

#[test]
fn play_loads_first_level_only_when_none_is_loaded() {
    let mut m = MenuState::new();
    assert_eq!(m.select(false, 0), MenuCommand::Enter { load_level: Some(1) });
    assert_eq!(m.select(true, 2), MenuCommand::Enter { load_level: None });
}

#[test]
fn level_selection_round_trip() {
    let mut m = MenuState::new();
    m.move_down();
    assert_eq!(m.select(false, 0), MenuCommand::Stay);
    assert_eq!(m.node, MenuNode::LevelSelection);
    m.move_down();
    m.move_down();
    assert_eq!(m.select(false, 0), MenuCommand::Enter { load_level: Some(3) });
    assert_eq!(m.node, MenuNode::MainMenu);
    assert_eq!(m.current, MenuItem::Play);
}

#[test]
fn escape_backs_out_of_level_selection_only() {
    let mut m = MenuState::new();
    assert!(!m.escape());
    m.update(0, MenuNode::LevelSelection);
    assert!(m.escape());
    assert_eq!(m.node, MenuNode::MainMenu);
}

#[test]
fn retry_and_next_level() {
    let mut m = MenuState::new();
    m.game_over();
    assert_eq!(m.select(true, 4), MenuCommand::Enter { load_level: Some(4) });
    assert!(!m.game_won(4));
    assert_eq!(m.select(true, 4), MenuCommand::Enter { load_level: Some(5) });
    assert!(m.game_won(5));
    assert_eq!(m.select(true, 5), MenuCommand::Stay);
    assert_eq!(m.node, MenuNode::MainMenu);
}

#[test]
fn repaint_hands_out_two_rows_once() {
    let mut m = MenuState::new();
    let _ = m.take_repaint();
    m.move_down();
    assert_eq!(
        m.take_repaint(),
        Some(Repaint { node: MenuNode::MainMenu, unselect: MenuItem::Play, select: MenuItem::LoadLevel })
    );
    assert_eq!(m.take_repaint(), None);
}

#[test]
fn phases_follow_input() {
    let mut p = Phases::new();
    p.enter();
    assert!(p.menu_runs());
    assert_eq!(p.apply(MenuCommand::Enter { load_level: Some(1) }), CurrentGame::Breakout);
    assert_eq!(p.game, GamePhase::InGame);
    assert!(!p.simulation_runs());
    p.input_while_paused(true, false);
    assert!(p.simulation_runs());
    p.escape_while_playing();
    assert_eq!(p, Phases { game: GamePhase::InMenu, play: PlayPhase::Paused });
    assert_eq!(p.apply(MenuCommand::ExitGame), CurrentGame::InMainMenu);
    assert_eq!(p.game, GamePhase::Exited);
}

#[test]
fn launcher_wraps_and_selects() {
    let mut l = Launcher::new();
    l.move_up();
    assert_eq!(l.selection_index, 3);
    assert_eq!(l.select(), LauncherCommand::Quit);
    l.move_down();
    assert_eq!(l.select(), LauncherCommand::Run(CurrentGame::Breakout));
    l.move_down();
    assert_eq!(l.select(), LauncherCommand::Run(CurrentGame::Tetris));
    l.move_down();
    assert_eq!(l.select(), LauncherCommand::Nothing);
}
