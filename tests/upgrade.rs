use retro_games::{random_upgrade_kind, upgrade_kind_for_roll, PaddleEffect, PaddleSize, UpgradeKind};

const SECOND: u64 = 1_000_000_000;

#[test]
fn roll_maps_to_kind() {
    assert_eq!(upgrade_kind_for_roll(0), UpgradeKind::Shrink);
    assert_eq!(upgrade_kind_for_roll(29), UpgradeKind::Shrink);
    assert_eq!(upgrade_kind_for_roll(30), UpgradeKind::Grow);
    assert_eq!(upgrade_kind_for_roll(99), UpgradeKind::Grow);
    assert_eq!(upgrade_kind_for_roll(129), UpgradeKind::Shrink);
    let shrink = (0..100u32).filter(|r| upgrade_kind_for_roll(*r) == UpgradeKind::Shrink).count();
    assert_eq!(shrink, 30);
}

#[test]
fn spawn_kinds_are_about_thirty_percent_shrink() {
    let n = 20000;
    let shrink = (0..n).filter(|_| random_upgrade_kind() == UpgradeKind::Shrink).count();
    let share = shrink as f64 / n as f64;
    assert!(share > 0.27 && share < 0.33, "share {share}");
}

#[test]
fn paddle_widths() {
    assert_eq!(PaddleSize::Nominal.width(), 150);
    assert_eq!(PaddleSize::Grown.width(), 300);
    assert_eq!(PaddleSize::Shrunk.width(), 100);
}

#[test]
fn upgrade_runs_out_after_fifteen_seconds() {
    let mut e = PaddleEffect::new();
    assert!(!e.tick(20 * SECOND));
    assert_eq!(e.size, PaddleSize::Nominal);
    e.catch_upgrade(UpgradeKind::Grow);
    assert_eq!(e.size, PaddleSize::Grown);
    assert_eq!(e.remaining_ns(), 15 * SECOND);
    assert!(!e.tick(14 * SECOND));
    assert_eq!(e.remaining_ns(), SECOND);
    assert!(e.tick(SECOND));
    assert_eq!(e.size, PaddleSize::Nominal);
    assert_eq!(e.remaining_ns(), 0);
}

#[test]
fn second_catch_resets_timer() {
    let mut e = PaddleEffect::new();
    e.catch_upgrade(UpgradeKind::Grow);
    assert!(!e.tick(10 * SECOND));
    e.catch_upgrade(UpgradeKind::Shrink);
    assert_eq!(e.size, PaddleSize::Shrunk);
    assert_eq!(e.remaining_ns(), 15 * SECOND);
    assert!(!e.tick(10 * SECOND));
    assert_eq!(e.size, PaddleSize::Shrunk);
    assert!(e.tick(5 * SECOND));
    assert_eq!(e.size, PaddleSize::Nominal);
}
