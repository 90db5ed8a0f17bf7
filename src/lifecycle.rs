use vstd::prelude::*;
use crate::level::{Brick, BrickKind};

verus! {

/// What one hit of a ball does to a brick.
#[derive(Clone, Copy, Debug, PartialEq, Eq, Structural)]
pub enum HitOutcome {
    /// The brick lost its last life and is to be despawned.
    Destroyed,
    /// The brick survives; `tier` is the visual tier of the lives it has left.
    Damaged { tier: u32 },
    /// The brick had already lost its last life this tick and awaits despawning.
    AlreadyDestroyed,
}

/// What the destruction of a brick asks for next.
#[derive(Clone, Copy, Debug, PartialEq, Eq, Structural)]
pub enum FollowUp {
    Nothing,
    /// A new ball, starting where the brick stood.
    SpawnBall,
    /// A falling upgrade, starting where the brick stood.
    SpawnUpgrade,
}

/// The visual tier of a brick with `lives` lives: one tier per life, from 0.
pub open spec fn tier_of(lives: u32) -> u32 {
    if lives == 0 {
        0
    } else {
        (lives - 1) as u32
    }
}

pub open spec fn follow_up_of(kind: BrickKind) -> FollowUp {
    match kind {
        BrickKind::Normal => FollowUp::Nothing,
        BrickKind::Spawner => FollowUp::SpawnBall,
        BrickKind::Upgrade => FollowUp::SpawnUpgrade,
    }
}

/// A batch of `despawned` removals clears a set of `live` objects: every
/// object that was live at the start of the tick is gone.
pub open spec fn batch_clears(despawned: nat, live: nat) -> bool {
    despawned >= live
}

impl Brick {
    /// The visual tier for the lives the brick has.
    pub fn tier(&self) -> (r: u32)
        ensures
            r == tier_of(self.lives),
    {
        if self.lives == 0 {
            0
        } else {
            self.lives - 1
        }
    }

    /// A ball hits the brick: it loses one life, down to zero.
    pub fn hit(&mut self) -> (r: HitOutcome)
        ensures
            final(self).kind == old(self).kind,
            old(self).lives == 0 ==> final(self).lives == 0 && r == HitOutcome::AlreadyDestroyed,
            old(self).lives == 1 ==> final(self).lives == 0 && r == HitOutcome::Destroyed,
            old(self).lives > 1 ==> final(self).lives == old(self).lives - 1 && r
                == (HitOutcome::Damaged { tier: tier_of(final(self).lives) }),
    {
        if self.lives == 0 {
            HitOutcome::AlreadyDestroyed
        } else {
            self.lives = self.lives - 1;
            if self.lives == 0 {
                HitOutcome::Destroyed
            } else {
                HitOutcome::Damaged { tier: self.tier() }
            }
        }
    }
}

/// What the destruction of a brick of kind `kind` asks for next.
pub fn follow_up(kind: BrickKind) -> (r: FollowUp)
    ensures
        r == follow_up_of(kind),
{
    match kind {
        BrickKind::Normal => FollowUp::Nothing,
        BrickKind::Spawner => FollowUp::SpawnBall,
        BrickKind::Upgrade => FollowUp::SpawnUpgrade,
    }
}

/// The outcome of one tick's batch of brick removals.
#[derive(Clone, Debug)]
pub struct BrickBatch {
    /// One entry per destroyed brick, in the order of the batch.
    pub follow_ups: Vec<FollowUp>,
    /// The level has been cleared.
    pub game_won: bool,
}

/// Processes one tick's removals of the bricks of kinds `destroyed`, out of
/// `live` bricks that stood at the start of the tick.
pub fn despawn_bricks(destroyed: &Vec<BrickKind>, live: usize) -> (r: BrickBatch)
    ensures
        r.follow_ups@.len() == destroyed@.len(),
        forall|i: int|
            0 <= i < destroyed@.len() ==> r.follow_ups@[i] == follow_up_of(#[trigger] destroyed@[i]),
        r.game_won == batch_clears(destroyed@.len(), live as nat),
{
    let mut follow_ups: Vec<FollowUp> = Vec::new();
    let mut i: usize = 0;
    while i < destroyed.len()
        invariant
            i <= destroyed@.len(),
            follow_ups@.len() == i,
            forall|j: int| 0 <= j < i ==> follow_ups@[j] == follow_up_of(#[trigger] destroyed@[j]),
        decreases destroyed@.len() - i,
    {
        follow_ups.push(follow_up(destroyed[i]));
        i = i + 1;
    }
    BrickBatch { follow_ups, game_won: destroyed.len() >= live }
}

/// Processes one tick's removals of `despawned` balls, out of `live` balls
/// that were in play at the start of the tick; returns whether the game is
/// over.
pub fn despawn_balls(despawned: usize, live: usize) -> (game_over: bool)
    ensures
        game_over == batch_clears(despawned as nat, live as nat),
{
    despawned >= live
}

/// A batch of removals as large as the live set ends the game (one game-won
/// or game-over signal), and a smaller batch does not.
pub proof fn lemma_batch_end_signal(despawned: nat, live: nat)
    ensures
        despawned == live ==> batch_clears(despawned, live),
        despawned < live ==> !batch_clears(despawned, live),
{
}

} // verus!
