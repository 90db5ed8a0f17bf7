use retro_games::{parse_level, Brick, BrickKind, LevelError};

#[test]
fn spawner_and_normal_brick_on_one_row() {
    let level = parse_level("2 1\nS 3\n").unwrap();
    assert_eq!(level.cols, 2);
    assert_eq!(level.rows, 1);
    assert_eq!(level.cell(0, 0), Some(Brick { lives: 1, kind: BrickKind::Spawner }));
    assert_eq!(level.cell(1, 0), Some(Brick { lives: 3, kind: BrickKind::Normal }));
}

#[test]
fn short_row_is_an_error() {
    assert_eq!(parse_level("3 1\nS 3\n").unwrap_err(), LevelError::ShortGrid);
}

#[test]
fn missing_header_is_an_error() {
    assert_eq!(parse_level("").unwrap_err(), LevelError::MissingHeader);
    assert_eq!(parse_level("  4 \n").unwrap_err(), LevelError::MissingHeader);
}

#[test]
fn malformed_header_is_an_error() {
    assert_eq!(parse_level("x 1 S").unwrap_err(), LevelError::BadHeader);
    assert_eq!(parse_level("1 -1 S").unwrap_err(), LevelError::BadHeader);
    assert_eq!(parse_level("0 1 S").unwrap_err(), LevelError::BadHeader);
    assert_eq!(parse_level("99999999999 1 S").unwrap_err(), LevelError::BadHeader);
}

#[test]
fn every_token_kind() {
    let level = parse_level("4 2\n1 5 U .\n6 0 S x\n").unwrap();
    assert_eq!(level.cells.len(), 8);
    assert_eq!(level.cell(0, 0), Some(Brick { lives: 1, kind: BrickKind::Normal }));
    assert_eq!(level.cell(1, 0), Some(Brick { lives: 5, kind: BrickKind::Normal }));
    assert_eq!(level.cell(2, 0), Some(Brick { lives: 1, kind: BrickKind::Upgrade }));
    assert_eq!(level.cell(3, 0), None);
    assert_eq!(level.cell(0, 1), None);
    assert_eq!(level.cell(1, 1), None);
    assert_eq!(level.cell(2, 1), Some(Brick { lives: 1, kind: BrickKind::Spawner }));
    assert_eq!(level.cell(3, 1), None);
}

#[test]
fn whitespace_of_any_kind_and_trailing_tokens() {
    let level = parse_level("\t1\r\n1   \n\n 2   extra tokens").unwrap();
    assert_eq!(level.cell(0, 0), Some(Brick { lives: 2, kind: BrickKind::Normal }));
    assert_eq!(level.cells.len(), 1);
}

#[test]
fn brick_tier_follows_lives() {
    let level = parse_level("2 1 4 1").unwrap();
    assert_eq!(level.cell(0, 0).unwrap().tier(), 3);
    assert_eq!(level.cell(1, 0).unwrap().tier(), 0);
}

#[test]
fn largest_header_count() {
    assert_eq!(parse_level("4294967295 1 S").unwrap_err(), LevelError::ShortGrid);
    assert_eq!(parse_level("4294967296 1 S").unwrap_err(), LevelError::BadHeader);
    assert_eq!(parse_level("1 4294967296 S").unwrap_err(), LevelError::BadHeader);
}
