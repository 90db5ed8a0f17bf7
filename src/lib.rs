//! Game logic of a small collection of retro arcade games: the breakout level
//! format, brick and ball lifecycle decisions, the paddle upgrade effect, the
//! menus and game phases, and the tetris playing grid.

pub mod level;
pub mod lifecycle;
pub mod upgrade;
pub mod menu;
pub mod phases;
pub mod tetris;

pub use level::{Brick, BrickKind, Level, LevelError, parse_level};
pub use lifecycle::{BrickBatch, FollowUp, HitOutcome, despawn_balls, despawn_bricks, follow_up};
pub use upgrade::{
    PaddleEffect, PaddleSize, UpgradeKind, random_upgrade_kind, upgrade_kind_for_roll,
};
pub use menu::{MenuCommand, MenuItem, MenuNode, MenuState, Repaint, TOTAL_LEVELS, item_at, item_count};
pub use phases::{
    CurrentGame, GamePhase, Launcher, LauncherCommand, LauncherItem, Phases, PlayPhase,
};
pub use tetris::{
    FallingPiece, GameGrid, GridCoords, MenuNodeComponent, MenuUpdateEvent, MoveDirection,
    Rotation, TetrisAction, TetrisMenuItem, TetrisMenuState, TetrisState, Tetromino,
    TetrominoShape,
};
