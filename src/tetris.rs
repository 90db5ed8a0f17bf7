use vstd::prelude::*;

verus! {

pub const NB_ROWS: usize = 16;
pub const NB_COLS: usize = 10;

/// A cell of the tetris grid: column `x` from the left, row `y` from the bottom.
#[derive(Clone, Copy, Debug, PartialEq, Eq, Structural)]
pub struct GridCoords {
    pub x: i32,
    pub y: i32,
}

#[derive(Clone, Copy, Debug, PartialEq, Eq, Structural)]
pub enum MoveDirection {
    Up,
    Down,
    Left,
    Right,
}

/// The phase of the tetris game.
#[derive(Clone, Copy, Debug, PartialEq, Eq, Hash, Structural)]
pub enum TetrisState {
    Exited,
    InMenu,
    InGame,
}

pub open spec fn in_bounds_spec(c: GridCoords) -> bool {
    0 <= c.x < NB_COLS && 0 <= c.y < NB_ROWS
}

pub open spec fn index_of(c: GridCoords) -> int {
    c.y * NB_COLS + c.x
}

/// The cell one step away from `c` in direction `d`.
pub open spec fn neighbour(c: GridCoords, d: MoveDirection) -> (int, int) {
    match d {
        MoveDirection::Up => (c.x as int, c.y + 1),
        MoveDirection::Down => (c.x as int, c.y - 1),
        MoveDirection::Left => (c.x - 1, c.y as int),
        MoveDirection::Right => (c.x + 1, c.y as int),
    }
}

/// The grid of settled blocks; each occupied cell holds the id of its block.
#[derive(Clone, Debug)]
pub struct GameGrid {
    pub cells: Vec<Option<u64>>,
}

impl GameGrid {
    pub open spec fn wf(&self) -> bool {
        self.cells@.len() == NB_ROWS * NB_COLS
    }

    /// The block at `c`, none outside the grid.
    pub open spec fn occupant(&self, c: GridCoords) -> Option<u64> {
        if in_bounds_spec(c) {
            self.cells@[index_of(c)]
        } else {
            None
        }
    }

    pub open spec fn free_spec(&self, c: GridCoords) -> bool {
        in_bounds_spec(c) && self.occupant(c).is_none()
    }

    /// An empty grid.
    pub fn new() -> (r: GameGrid)
        ensures
            r.wf(),
            forall|c: GridCoords| #[trigger] r.occupant(c).is_none(),
    {
        let mut cells: Vec<Option<u64>> = Vec::new();
        let mut i: usize = 0;
        while i < NB_ROWS * NB_COLS
            invariant
                i <= NB_ROWS * NB_COLS,
                cells@.len() == i,
                forall|j: int| 0 <= j < i ==> (#[trigger] cells@[j]).is_none(),
            decreases NB_ROWS * NB_COLS - i,
        {
            cells.push(None);
            i = i + 1;
        }
        GameGrid { cells }
    }

    /// Whether `c` lies inside the grid.
    pub fn in_bounds(coords: GridCoords) -> (r: bool)
        ensures
            r == in_bounds_spec(coords),
    {
        0 <= coords.x && coords.x < NB_COLS as i32 && 0 <= coords.y && coords.y < NB_ROWS as i32
    }

    /// The block at `coords`, none outside the grid.
    pub fn get(&self, coords: GridCoords) -> (r: Option<u64>)
        requires
            self.wf(),
        ensures
            r == self.occupant(coords),
    {
        if GameGrid::in_bounds(coords) {
            self.cells[(coords.y as usize) * NB_COLS + coords.x as usize]
        } else {
            None
        }
    }

    /// Whether `coords` lies inside the grid and holds no block.
    pub fn is_free(&self, coords: GridCoords) -> (r: bool)
        requires
            self.wf(),
        ensures
            r == self.free_spec(coords),
    {
        GameGrid::in_bounds(coords) && self.get(coords).is_none()
    }

    /// Whether `coords` lies outside the grid or holds a block.
    pub fn is_occupied(&self, coords: GridCoords) -> (r: bool)
        requires
            self.wf(),
        ensures
            r == !self.free_spec(coords),
    {
        !self.is_free(coords)
    }

    /// Puts block `entity` in the free cell `coords`.
    pub fn set(&mut self, coords: GridCoords, entity: u64)
        requires
            old(self).wf(),
            old(self).free_spec(coords),
        ensures
            final(self).wf(),
            forall|c: GridCoords|
                #[trigger] final(self).occupant(c) == if c == coords {
                    Some(entity)
                } else {
                    old(self).occupant(c)
                },
    {
        let i = (coords.y as usize) * NB_COLS + coords.x as usize;
        self.cells.set(i, Some(entity));
        assert forall|c: GridCoords| #[trigger] self.occupant(c) == if c == coords {
            Some(entity)
        } else {
            old(self).occupant(c)
        } by {
            if in_bounds_spec(c) && c != coords {
                assert(index_of(c) != index_of(coords));
            }
        }
    }

    /// Whether a block at `coords` can move one step in `direction`: the
    /// target cell is free, or the block is still above the grid and falls.
    pub fn can_move_in_direction(&self, coords: GridCoords, direction: MoveDirection) -> (r: bool)
        requires
            self.wf(),
        ensures
            ({
                let (x, y) = neighbour(coords, direction);
                r == if direction == MoveDirection::Down && y >= NB_ROWS {
                    true
                } else if i32::MIN <= x <= i32::MAX && i32::MIN <= y <= i32::MAX {
                    self.free_spec(GridCoords { x: x as i32, y: y as i32 })
                } else {
                    false
                }
            }),
    {
        let (x, y): (i64, i64) = match direction {
            MoveDirection::Up => (coords.x as i64, coords.y as i64 + 1),
            MoveDirection::Down => (coords.x as i64, coords.y as i64 - 1),
            MoveDirection::Left => (coords.x as i64 - 1, coords.y as i64),
            MoveDirection::Right => (coords.x as i64 + 1, coords.y as i64),
        };
        if direction == MoveDirection::Down && y >= NB_ROWS as i64 {
            return true;
        }
        if x < i32::MIN as i64 || x > i32::MAX as i64 || y < i32::MIN as i64 || y > i32::MAX as i64 {
            return false;
        }
        self.is_free(GridCoords { x: x as i32, y: y as i32 })
    }
}

/// A quarter-turn orientation of a tetromino.
#[derive(Clone, Copy, Debug, PartialEq, Eq, Structural)]
pub enum Rotation {
    R0,
    R90,
    R180,
    R270,
}

/// Quarter turns from `R0`, clockwise.
pub open spec fn quarter_turns(r: Rotation) -> int {
    match r {
        Rotation::R0 => 0,
        Rotation::R90 => 1,
        Rotation::R180 => 2,
        Rotation::R270 => 3,
    }
}

impl Rotation {
    /// A quarter turn counter-clockwise.
    pub fn rotate_left(&self) -> (r: Rotation)
        ensures
            quarter_turns(r) == (quarter_turns(*self) + 3) % 4,
    {
        match self {
            Rotation::R0 => Rotation::R270,
            Rotation::R90 => Rotation::R0,
            Rotation::R180 => Rotation::R90,
            Rotation::R270 => Rotation::R180,
        }
    }

    /// A quarter turn clockwise.
    pub fn rotate_right(&self) -> (r: Rotation)
        ensures
            quarter_turns(r) == (quarter_turns(*self) + 1) % 4,
    {
        match self {
            Rotation::R0 => Rotation::R90,
            Rotation::R90 => Rotation::R180,
            Rotation::R180 => Rotation::R270,
            Rotation::R270 => Rotation::R0,
        }
    }
}

/// The seven tetromino shapes.
#[derive(Clone, Copy, Debug, PartialEq, Eq, Structural)]
pub enum TetrominoShape {
    I,
    O,
    T,
    S,
    Z,
    J,
    L,
}

/// The cells of the `I` shape in its 4x4 box, `(x, y)` from the bottom left.
pub open spec fn i_shape_cells(rotation: Rotation) -> Seq<(u32, u32)> {
    match rotation {
        Rotation::R0 | Rotation::R180 => seq![(2u32, 3u32), (2u32, 2u32), (2u32, 1u32), (2u32, 0u32)],
        Rotation::R90 | Rotation::R270 => seq![(0u32, 1u32), (1u32, 1u32), (2u32, 1u32), (3u32, 1u32)],
    }
}

impl TetrominoShape {
    /// The four cells of the shape in its 4x4 box for `rotation`. Only the
    /// `I` shape has its cells laid out yet.
    pub fn get_local_coords(&self, rotation: Rotation) -> (r: [(u32, u32); 4])
        requires
            *self == TetrominoShape::I,
        ensures
            r@ == i_shape_cells(rotation),
    {
        let r = match rotation {
            Rotation::R0 | Rotation::R180 => [(2u32, 3u32), (2u32, 2u32), (2u32, 1u32), (2u32, 0u32)],
            Rotation::R90 | Rotation::R270 => [(0u32, 1u32), (1u32, 1u32), (2u32, 1u32), (3u32, 1u32)],
        };
        assert(r@ =~= i_shape_cells(rotation));
        r
    }
}

/// A tetromino on the grid: the cell of its box, the ids of its four
/// blocks, and its shape.
#[derive(Clone, Copy, Debug)]
pub struct Tetromino {
    pub coords: (u32, u32),
    pub blocks: [u64; 4],
    pub shape: TetrominoShape,
}

/// A falling piece: its position on the grid and the offsets of its blocks.
#[derive(Clone, Copy, Debug)]
pub struct FallingPiece {
    pub position: GridCoords,
    pub offsets: [GridCoords; 4],
}

/// Where block `i` of piece `p` lands after one step down.
pub open spec fn below(p: FallingPiece, i: int) -> (int, int) {
    (p.position.x + p.offsets@[i].x, p.position.y + p.offsets@[i].y - 1)
}

/// Every block of piece `p` has a free cell of `grid` right below it.
pub open spec fn fits_below(p: FallingPiece, grid: GameGrid) -> bool {
    forall|i: int|
        0 <= i < 4 ==> {
            let (x, y) = #[trigger] below(p, i);
            0 <= x < NB_COLS && 0 <= y < NB_ROWS && grid.free_spec(
                GridCoords { x: x as i32, y: y as i32 },
            )
        }
}

/// The block offsets of the `I` shape lying flat.
pub open spec fn i_shape_positions() -> Seq<GridCoords> {
    seq![
        GridCoords { x: 0, y: 1 },
        GridCoords { x: 1, y: 1 },
        GridCoords { x: 2, y: 1 },
        GridCoords { x: 3, y: 1 },
    ]
}

impl TetrominoShape {
    /// The offsets of the shape's four blocks from the piece's position. Only
    /// the `I` shape has its blocks laid out yet.
    pub fn get_positions(&self) -> (r: [GridCoords; 4])
        requires
            *self == TetrominoShape::I,
        ensures
            r@ == i_shape_positions(),
    {
        let r = [
            GridCoords { x: 0, y: 1 },
            GridCoords { x: 1, y: 1 },
            GridCoords { x: 2, y: 1 },
            GridCoords { x: 3, y: 1 },
        ];
        assert(r@ =~= i_shape_positions());
        r
    }
}

impl FallingPiece {
    /// A new piece of `shape` at the top of the grid, in column 4 and row 12.
    pub fn spawn(shape: TetrominoShape) -> (r: FallingPiece)
        requires
            shape == TetrominoShape::I,
        ensures
            r.position == (GridCoords { x: 4, y: 12 }),
            r.offsets@ == i_shape_positions(),
    {
        FallingPiece { position: GridCoords { x: 4, y: 12 }, offsets: shape.get_positions() }
    }

    /// One step of gravity: the piece moves a row down where it can.
    /// Returns whether it moved.
    pub fn fall_if_possible(&mut self, grid: &GameGrid) -> (fell: bool)
        requires
            grid.wf(),
        ensures
            fell == fits_below(*old(self), *grid),
            fell ==> final(self).position == (GridCoords {
                x: old(self).position.x,
                y: (old(self).position.y - 1) as i32,
            }),
            !fell ==> final(self).position == old(self).position,
            final(self).offsets == old(self).offsets,
    {
        if self.can_fall(grid) {
            proof {
                assert(0 <= below(*self, 0).1);
                assert(self.position.y > i32::MIN) by {
                    assert(self.position.y + self.offsets@[0].y - 1 >= 0);
                }
            }
            self.fall();
            true
        } else {
            false
        }
    }

    /// Whether each block of the piece has a free cell right below it.
    pub fn can_fall(&self, grid: &GameGrid) -> (r: bool)
        requires
            grid.wf(),
        ensures
            r == fits_below(*self, *grid),
    {
        let mut i: usize = 0;
        while i < 4
            invariant
                i <= 4,
                grid.wf(),
                forall|j: int|
                    0 <= j < i ==> {
                        let (x, y) = #[trigger] below(*self, j);
                        0 <= x < NB_COLS && 0 <= y < NB_ROWS && grid.free_spec(
                            GridCoords { x: x as i32, y: y as i32 },
                        )
                    },
            decreases 4 - i,
        {
            let x: i64 = self.position.x as i64 + self.offsets[i].x as i64;
            let y: i64 = self.position.y as i64 + self.offsets[i].y as i64 - 1;
            assert(below(*self, i as int) == (x as int, y as int));
            if x < 0 || x >= NB_COLS as i64 || y < 0 || y >= NB_ROWS as i64 {
                return false;
            }
            if grid.is_occupied(GridCoords { x: x as i32, y: y as i32 }) {
                return false;
            }
            i = i + 1;
        }
        true
    }

    /// Moves the piece one row down.
    pub fn fall(&mut self)
        requires
            old(self).position.y > i32::MIN,
        ensures
            final(self).position == (GridCoords { x: old(self).position.x, y: (old(self).position.y - 1) as i32 }),
            final(self).offsets == old(self).offsets,
    {
        self.position.y = self.position.y - 1;
    }
}

/// A page of the tetris menu.
#[derive(Clone, Copy, Debug, PartialEq, Eq, Structural)]
pub enum MenuNodeComponent {
    MainMenu,
    PauseMenu,
}

/// An entry of a page of the tetris menu.
#[derive(Clone, Copy, Debug, PartialEq, Eq, Structural)]
pub enum TetrisMenuItem {
    Play,
    ViewHighScores,
    Exit,
    Resume,
    MainMenu,
}

pub open spec fn tetris_items_of(node: MenuNodeComponent) -> Seq<TetrisMenuItem> {
    match node {
        MenuNodeComponent::MainMenu => seq![
            TetrisMenuItem::Play,
            TetrisMenuItem::ViewHighScores,
            TetrisMenuItem::Exit,
        ],
        MenuNodeComponent::PauseMenu => seq![TetrisMenuItem::Resume, TetrisMenuItem::MainMenu],
    }
}

impl MenuNodeComponent {
    /// The entries of the page, top to bottom.
    pub fn get_items(&self) -> (r: Vec<TetrisMenuItem>)
        ensures
            r@ == tetris_items_of(*self),
    {
        let r = match self {
            MenuNodeComponent::MainMenu => vec![
                TetrisMenuItem::Play,
                TetrisMenuItem::ViewHighScores,
                TetrisMenuItem::Exit,
            ],
            MenuNodeComponent::PauseMenu => vec![TetrisMenuItem::Resume, TetrisMenuItem::MainMenu],
        };
        assert(r@ =~= tetris_items_of(*self));
        r
    }
}

/// A change of the tetris menu's page, of its selected entry, or of both.
#[derive(Clone, Copy, Debug, PartialEq, Eq, Structural)]
pub struct MenuUpdateEvent {
    pub new_menu_node: Option<MenuNodeComponent>,
    pub new_selection_index: Option<usize>,
}

/// What the tetris game has to do after a confirmed menu entry.
#[derive(Clone, Copy, Debug, PartialEq, Eq, Structural)]
pub enum TetrisAction {
    Nothing,
    /// Load a new game and enter it.
    StartGame,
    /// Go back to the game in progress.
    Resume,
    /// Drop the game in progress.
    CleanupGame,
    /// Leave tetris for the top-level selection.
    Exit,
}

/// The cursor of the tetris menu.
#[derive(Clone, Copy, Debug, PartialEq, Eq, Structural)]
pub struct TetrisMenuState {
    pub selection_index: usize,
    pub current_menu_node: MenuNodeComponent,
}

pub open spec fn tetris_selected(node: MenuNodeComponent, index: nat) -> (
    Option<MenuUpdateEvent>,
    TetrisAction,
) {
    match tetris_items_of(node)[index as int] {
        TetrisMenuItem::Play => (None, TetrisAction::StartGame),
        TetrisMenuItem::ViewHighScores => (
            Some(
                MenuUpdateEvent {
                    new_menu_node: Some(MenuNodeComponent::PauseMenu),
                    new_selection_index: Some(0),
                },
            ),
            TetrisAction::Nothing,
        ),
        TetrisMenuItem::Exit => (None, TetrisAction::Exit),
        TetrisMenuItem::Resume => (None, TetrisAction::Resume),
        TetrisMenuItem::MainMenu => (
            Some(
                MenuUpdateEvent {
                    new_menu_node: Some(MenuNodeComponent::MainMenu),
                    new_selection_index: Some(0),
                },
            ),
            TetrisAction::CleanupGame,
        ),
    }
}

impl TetrisMenuState {
    pub open spec fn wf(&self) -> bool {
        self.selection_index < tetris_items_of(self.current_menu_node).len()
    }

    /// The first entry of the main page.
    pub fn new() -> (r: TetrisMenuState)
        ensures
            r.wf(),
            r.selection_index == 0,
            r.current_menu_node == MenuNodeComponent::MainMenu,
    {
        TetrisMenuState { selection_index: 0, current_menu_node: MenuNodeComponent::MainMenu }
    }

    /// The update that moves the cursor one entry up or down, wrapping round.
    pub fn navigate(&self, up: bool) -> (r: MenuUpdateEvent)
        requires
            self.wf(),
        ensures
            r.new_menu_node.is_none(),
            r.new_selection_index == Some(
                (if up {
                    crate::menu::index_up(
                        self.selection_index as nat,
                        tetris_items_of(self.current_menu_node).len(),
                    )
                } else {
                    crate::menu::index_down(
                        self.selection_index as nat,
                        tetris_items_of(self.current_menu_node).len(),
                    )
                }) as usize,
            ),
    {
        let len = self.current_menu_node.get_items().len();
        let index = if up {
            if self.selection_index == 0 {
                len - 1
            } else {
                self.selection_index - 1
            }
        } else {
            if self.selection_index + 1 >= len {
                0
            } else {
                self.selection_index + 1
            }
        };
        MenuUpdateEvent { new_menu_node: None, new_selection_index: Some(index) }
    }

    /// Confirms the selected entry: the menu update and the action it asks for.
    pub fn select(&self) -> (r: (Option<MenuUpdateEvent>, TetrisAction))
        requires
            self.wf(),
        ensures
            r == tetris_selected(self.current_menu_node, self.selection_index as nat),
    {
        let items = self.current_menu_node.get_items();
        match items[self.selection_index] {
            TetrisMenuItem::Play => (None, TetrisAction::StartGame),
            TetrisMenuItem::ViewHighScores => (
                Some(
                    MenuUpdateEvent {
                        new_menu_node: Some(MenuNodeComponent::PauseMenu),
                        new_selection_index: Some(0),
                    },
                ),
                TetrisAction::Nothing,
            ),
            TetrisMenuItem::Exit => (None, TetrisAction::Exit),
            TetrisMenuItem::Resume => (None, TetrisAction::Resume),
            TetrisMenuItem::MainMenu => (
                Some(
                    MenuUpdateEvent {
                        new_menu_node: Some(MenuNodeComponent::MainMenu),
                        new_selection_index: Some(0),
                    },
                ),
                TetrisAction::CleanupGame,
            ),
        }
    }

    /// Applies an update: its page and its selected entry, where it has them.
    pub fn apply(&mut self, ev: MenuUpdateEvent)
        requires
            old(self).wf(),
            ({
                let node = match ev.new_menu_node {
                    Some(n) => n,
                    None => old(self).current_menu_node,
                };
                match ev.new_selection_index {
                    Some(i) => i < tetris_items_of(node).len(),
                    None => old(self).selection_index < tetris_items_of(node).len(),
                }
            }),
        ensures
            final(self).wf(),
            final(self).current_menu_node == match ev.new_menu_node {
                Some(n) => n,
                None => old(self).current_menu_node,
            },
            final(self).selection_index == match ev.new_selection_index {
                Some(i) => i,
                None => old(self).selection_index,
            },
    {
        if let Some(n) = ev.new_menu_node {
            self.current_menu_node = n;
        }
        if let Some(i) = ev.new_selection_index {
            self.selection_index = i;
        }
    }
}

} // verus!
