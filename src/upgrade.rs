use vstd::prelude::*;
use vstd::set_lib::{set_int_range, lemma_int_range};

verus! {

/// The effect of a falling upgrade once the paddle catches it.
#[derive(Clone, Copy, Debug, PartialEq, Eq, Structural)]
pub enum UpgradeKind {
    Grow,
    Shrink,
}

/// The size the paddle currently has.
#[derive(Clone, Copy, Debug, PartialEq, Eq, Structural)]
pub enum PaddleSize {
    Nominal,
    Grown,
    Shrunk,
}

/// Out of every hundred draws, this many give a shrinking upgrade.
pub const SHRINK_PERCENT: u32 = 30;

/// How long a caught upgrade lasts, in nanoseconds.
pub const UPGRADE_DURATION_NS: u64 = 15_000_000_000;

pub const PADDLE_HEIGHT: u32 = 15;

pub open spec fn width_of(size: PaddleSize) -> u32 {
    match size {
        PaddleSize::Nominal => 150,
        PaddleSize::Grown => 300,
        PaddleSize::Shrunk => 100,
    }
}

pub open spec fn size_of(kind: UpgradeKind) -> PaddleSize {
    match kind {
        UpgradeKind::Grow => PaddleSize::Grown,
        UpgradeKind::Shrink => PaddleSize::Shrunk,
    }
}

/// The kind of upgrade that a random draw `roll` stands for.
pub open spec fn kind_for_roll(roll: u32) -> UpgradeKind {
    if roll % 100 < SHRINK_PERCENT {
        UpgradeKind::Shrink
    } else {
        UpgradeKind::Grow
    }
}

impl PaddleSize {
    /// Width of the paddle, in playfield units.
    pub fn width(&self) -> (r: u32)
        ensures
            r == width_of(*self),
    {
        match self {
            PaddleSize::Nominal => 150,
            PaddleSize::Grown => 300,
            PaddleSize::Shrunk => 100,
        }
    }
}

/// The kind of upgrade that a random draw `roll` stands for.
pub fn upgrade_kind_for_roll(roll: u32) -> (r: UpgradeKind)
    ensures
        r == kind_for_roll(roll),
{
    if roll % 100 < SHRINK_PERCENT {
        UpgradeKind::Shrink
    } else {
        UpgradeKind::Grow
    }
}

/// Relies on rand::random: a value drawn from the thread-local generator.
/// Nothing is promised of the value.
pub assume_specification<T>[ rand::random::<T> ]() -> (r: T)
    where
        rand::distributions::Standard: rand::distributions::Distribution<T>,
;

/// Draws the kind of a newly spawned upgrade.
pub fn random_upgrade_kind() -> (r: UpgradeKind)
    ensures
        exists|roll: u32| r == kind_for_roll(roll),
{
    let roll: u32 = rand::random::<u32>();
    upgrade_kind_for_roll(roll)
}

/// Of the hundred residues a draw is reduced to, exactly `SHRINK_PERCENT`
/// give a shrinking upgrade and the others a growing one.
pub proof fn lemma_shrink_share()
    ensures
        Set::new(|r: int| 0 <= r < 100 && kind_for_roll(r as u32) == UpgradeKind::Shrink).len()
            == SHRINK_PERCENT,
        Set::new(|r: int| 0 <= r < 100 && kind_for_roll(r as u32) == UpgradeKind::Grow).len()
            == 100 - SHRINK_PERCENT,
{
    lemma_int_range(0, 30);
    lemma_int_range(30, 100);
    assert(Set::new(|r: int| 0 <= r < 100 && kind_for_roll(r as u32) == UpgradeKind::Shrink)
        =~= set_int_range(0, 30));
    assert(Set::new(|r: int| 0 <= r < 100 && kind_for_roll(r as u32) == UpgradeKind::Grow)
        =~= set_int_range(30, 100));
}

/// The paddle's size together with the timer of the upgrade that set it.
#[derive(Clone, Copy, Debug, PartialEq, Eq, Structural)]
pub struct PaddleEffect {
    pub size: PaddleSize,
    /// Time the current upgrade has been in effect, in nanoseconds.
    pub elapsed_ns: u64,
    /// The timer runs; when it does not, the paddle has its nominal size.
    pub active: bool,
}

/// The state with no upgrade in effect.
pub open spec fn idle() -> PaddleEffect {
    PaddleEffect { size: PaddleSize::Nominal, elapsed_ns: 0, active: false }
}

/// The state after catching an upgrade of kind `kind`.
pub open spec fn caught(s: PaddleEffect, kind: UpgradeKind) -> PaddleEffect {
    PaddleEffect { size: size_of(kind), elapsed_ns: 0, active: true }
}

/// The state after `dt` nanoseconds have passed.
pub open spec fn ticked(s: PaddleEffect, dt: nat) -> PaddleEffect {
    if !s.active {
        s
    } else if s.elapsed_ns + dt >= UPGRADE_DURATION_NS {
        idle()
    } else {
        PaddleEffect { elapsed_ns: (s.elapsed_ns + dt) as u64, ..s }
    }
}

impl PaddleEffect {
    pub open spec fn wf(&self) -> bool {
        &&& self.elapsed_ns < UPGRADE_DURATION_NS
        &&& !self.active ==> *self == idle()
    }

    /// Time left before the paddle returns to its nominal size.
    pub open spec fn remaining(&self) -> nat {
        if self.active {
            (UPGRADE_DURATION_NS - self.elapsed_ns) as nat
        } else {
            0
        }
    }

    pub fn new() -> (r: PaddleEffect)
        ensures
            r == idle(),
            r.wf(),
    {
        PaddleEffect { size: PaddleSize::Nominal, elapsed_ns: 0, active: false }
    }

    /// The paddle catches an upgrade: its size follows the upgrade and the
    /// timer starts again from zero, whatever was in effect before.
    pub fn catch_upgrade(&mut self, kind: UpgradeKind)
        ensures
            *final(self) == caught(*old(self), kind),
            final(self).wf(),
    {
        self.size = match kind {
            UpgradeKind::Grow => PaddleSize::Grown,
            UpgradeKind::Shrink => PaddleSize::Shrunk,
        };
        self.elapsed_ns = 0;
        self.active = true;
    }

    /// `dt_ns` nanoseconds pass; returns whether the upgrade ran out now, in
    /// which case the paddle is back to its nominal size.
    pub fn tick(&mut self, dt_ns: u64) -> (expired: bool)
        requires
            old(self).wf(),
        ensures
            *final(self) == ticked(*old(self), dt_ns as nat),
            final(self).wf(),
            expired == (old(self).active && old(self).elapsed_ns + dt_ns >= UPGRADE_DURATION_NS),
    {
        if !self.active {
            return false;
        }
        if dt_ns >= UPGRADE_DURATION_NS - self.elapsed_ns {
            *self = PaddleEffect::new();
            true
        } else {
            self.elapsed_ns = self.elapsed_ns + dt_ns;
            false
        }
    }

    /// Time left before the paddle returns to its nominal size.
    pub fn remaining_ns(&self) -> (r: u64)
        requires
            self.wf(),
        ensures
            r == self.remaining(),
    {
        if self.active {
            UPGRADE_DURATION_NS - self.elapsed_ns
        } else {
            0
        }
    }
}

/// Catching a second upgrade while a first one is in effect restarts the
/// timer instead of adding to it, and the paddle's size follows the second
/// upgrade alone.
pub proof fn lemma_second_catch_resets(s: PaddleEffect, first: UpgradeKind, dt: nat, second: UpgradeKind)
    requires
        s.wf(),
        ticked(caught(s, first), dt).active,
    ensures
        ({
            let after = caught(ticked(caught(s, first), dt), second);
            &&& after.remaining() == UPGRADE_DURATION_NS
            &&& after.size == size_of(second)
            &&& after == caught(idle(), second)
        }),
{
}

} // verus!
