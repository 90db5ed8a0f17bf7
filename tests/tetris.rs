use retro_games::{
    FallingPiece, GameGrid, GridCoords, MenuNodeComponent, MenuUpdateEvent, MoveDirection,
    Rotation, TetrisAction, TetrisMenuItem, TetrisMenuState, TetrominoShape,
};

fn at(x: i32, y: i32) -> GridCoords {
    GridCoords { x, y }
}

#[test]
fn grid_get_set_and_bounds() {
    let mut g = GameGrid::new();
    assert!(GameGrid::in_bounds(at(0, 0)));
    assert!(GameGrid::in_bounds(at(9, 15)));
    assert!(!GameGrid::in_bounds(at(10, 0)));
    assert!(!GameGrid::in_bounds(at(0, -1)));
    assert!(g.is_free(at(3, 4)));
    g.set(at(3, 4), 77);
    assert_eq!(g.get(at(3, 4)), Some(77));
    assert_eq!(g.get(at(4, 3)), None);
    assert!(!g.is_free(at(3, 4)));
    assert!(g.is_occupied(at(3, 4)));
    assert!(g.is_occupied(at(-1, 4)));
    assert_eq!(g.get(at(30, 4)), None);
}

#[test]
fn moves_on_the_grid() {
    let mut g = GameGrid::new();
    g.set(at(5, 5), 1);
    assert!(!g.can_move_in_direction(at(5, 6), MoveDirection::Down));
    assert!(g.can_move_in_direction(at(5, 6), MoveDirection::Left));
    assert!(!g.can_move_in_direction(at(0, 6), MoveDirection::Left));
    assert!(g.can_move_in_direction(at(5, 20), MoveDirection::Down));
    assert!(!g.can_move_in_direction(at(5, 15), MoveDirection::Up));
}

#[test]
fn rotations() {
    assert_eq!(Rotation::R0.rotate_left(), Rotation::R270);
    assert_eq!(Rotation::R270.rotate_right(), Rotation::R0);
    assert_eq!(Rotation::R90.rotate_right().rotate_left(), Rotation::R90);
}

#[test]
fn i_shape_cells() {
    assert_eq!(TetrominoShape::I.get_local_coords(Rotation::R0), [(2, 3), (2, 2), (2, 1), (2, 0)]);
    assert_eq!(TetrominoShape::I.get_local_coords(Rotation::R90), [(0, 1), (1, 1), (2, 1), (3, 1)]);
}

#[test]
fn piece_falls_until_blocked() {
    let mut g = GameGrid::new();
    let mut p = FallingPiece { position: at(4, 2), offsets: [at(0, 1), at(1, 1), at(2, 1), at(3, 1)] };
    assert!(p.can_fall(&g));
    p.fall();
    assert_eq!(p.position, at(4, 1));
    p.fall();
    assert_eq!(p.position, at(4, 0));
    assert!(p.can_fall(&g));
    p.fall();
    assert!(!p.can_fall(&g));
    p.position = at(4, 5);
    g.set(at(6, 5), 9);
    assert!(!p.can_fall(&g));
}

#[test]
fn tetris_menu_navigation_and_selection() {
    let mut m = TetrisMenuState::new();
    assert_eq!(MenuNodeComponent::PauseMenu.get_items(), vec![TetrisMenuItem::Resume, TetrisMenuItem::MainMenu]);
    let up = m.navigate(true);
    assert_eq!(up, MenuUpdateEvent { new_menu_node: None, new_selection_index: Some(2) });
    m.apply(up);
    assert_eq!(m.select(), (None, TetrisAction::Exit));
    m.apply(m.navigate(false));
    assert_eq!(m.selection_index, 0);
    assert_eq!(m.select(), (None, TetrisAction::StartGame));
    m.apply(m.navigate(false));
    let (update, action) = m.select();
    assert_eq!(action, TetrisAction::Nothing);
    m.apply(update.unwrap());
    assert_eq!(m.current_menu_node, MenuNodeComponent::PauseMenu);
    m.apply(m.navigate(false));
    let (update, action) = m.select();
    assert_eq!(action, TetrisAction::CleanupGame);
    assert_eq!(update, Some(MenuUpdateEvent { new_menu_node: Some(MenuNodeComponent::MainMenu), new_selection_index: Some(0) }));
}

#[test]
fn spawned_piece_falls_to_the_floor() {
    let g = GameGrid::new();
    let mut p = FallingPiece::spawn(TetrominoShape::I);
    assert_eq!(p.position, at(4, 12));
    assert_eq!(TetrominoShape::I.get_positions(), [at(0, 1), at(1, 1), at(2, 1), at(3, 1)]);
    let mut steps = 0;
    while p.fall_if_possible(&g) {
        steps += 1;
    }
    assert_eq!(steps, 13);
    assert_eq!(p.position, at(4, -1));
    assert!(!p.fall_if_possible(&g));
    assert_eq!(p.position, at(4, -1));
}
