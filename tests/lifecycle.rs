use retro_games::{
    despawn_balls, despawn_bricks, follow_up, Brick, BrickKind, FollowUp, HitOutcome,
};

#[test]
fn hits_wear_a_brick_down() {
    let mut b = Brick { lives: 3, kind: BrickKind::Normal };
    assert_eq!(b.hit(), HitOutcome::Damaged { tier: 1 });
    assert_eq!(b.lives, 2);
    assert_eq!(b.hit(), HitOutcome::Damaged { tier: 0 });
    assert_eq!(b.hit(), HitOutcome::Destroyed);
    assert_eq!(b.lives, 0);
    assert_eq!(b.hit(), HitOutcome::AlreadyDestroyed);
    assert_eq!(b.lives, 0);
}

#[test]
fn special_bricks_break_at_once() {
    let mut s = Brick { lives: 1, kind: BrickKind::Spawner };
    assert_eq!(s.hit(), HitOutcome::Destroyed);
    assert_eq!(s.kind, BrickKind::Spawner);
}

#[test]
fn follow_ups_by_kind() {
    assert_eq!(follow_up(BrickKind::Normal), FollowUp::Nothing);
    assert_eq!(follow_up(BrickKind::Spawner), FollowUp::SpawnBall);
    assert_eq!(follow_up(BrickKind::Upgrade), FollowUp::SpawnUpgrade);
}

#[test]
fn brick_batch_equal_to_live_count_wins() {
    let batch = despawn_bricks(&vec![BrickKind::Normal, BrickKind::Upgrade], 2);
    assert!(batch.game_won);
    assert_eq!(batch.follow_ups, vec![FollowUp::Nothing, FollowUp::SpawnUpgrade]);
}

#[test]
fn brick_batch_smaller_than_live_count_does_not_win() {
    let batch = despawn_bricks(&vec![BrickKind::Spawner], 3);
    assert!(!batch.game_won);
    assert_eq!(batch.follow_ups, vec![FollowUp::SpawnBall]);
}

#[test]
fn ball_batches() {
    assert!(despawn_balls(1, 1));
    assert!(despawn_balls(3, 3));
    assert!(!despawn_balls(1, 2));
    assert!(!despawn_balls(0, 1));
}
