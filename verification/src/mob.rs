//! "Monster OBject" / "MOBile": MOB. This is the MOB state and methods for
//! manipulating it.

use crate::random::random;
use vstd::prelude::*;

verus! {

/// MOB state.
#[derive(Debug, Clone, Copy, PartialEq, Eq)]
pub struct Mob {
    /// MOB id. Globally unique across all sessions.
    pub id: u64,
    /// MOB position in field coordinates.
    pub posn: usize,
    /// MOB health.
    pub health: u64,
}

/// Where a MOB at `posn` goes for a direction roll: one step towards the
/// near end on 0 unless it stands at position 0, nowhere on 1, one step
/// towards the far end on 2.
pub open spec fn destination(posn: usize, dirn: u64) -> int {
    if dirn == 0 {
        if posn == 0 {
            0
        } else {
            posn - 1
        }
    } else if dirn == 1 {
        posn as int
    } else {
        posn + 1
    }
}

impl Mob {
    /// A MOB after a hit of the given strength: a hit of at least its
    /// health takes all of it, a weaker one is taken off.
    pub open spec fn damaged(self, hit: u64) -> (int, bool) {
        if hit >= self.health {
            (0, false)
        } else {
            (self.health - hit, true)
        }
    }

    /// Make a new MOB with the given ID and position, and with random
    /// health between 3 and 5.
    pub fn new(id: u64, posn: usize) -> (mob: Mob)
        ensures
            mob.id == id,
            mob.posn == posn,
            3 <= mob.health <= 5,
    {
        Mob::with_roll(id, posn, random(3))
    }

    /// Make a new MOB with the given ID and position, whose health is three
    /// more than the roll.
    pub fn with_roll(id: u64, posn: usize, roll: u64) -> (mob: Mob)
        requires
            roll < 3,
        ensures
            mob.id == id,
            mob.posn == posn,
            mob.health == roll + 3,
    {
        Mob { id, posn, health: roll + 3 }
    }

    /// Take a hit of random strength below 3. Returns whether the MOB is
    /// still alive.
    pub fn hit(&mut self) -> (alive: bool)
        ensures
            final(self).id == old(self).id,
            final(self).posn == old(self).posn,
            exists|hit: u64|
                hit < 3 && (final(self).health as int, alive) == #[trigger] old(self).damaged(
                    hit,
                ),
            alive == (final(self).health > 0),
            final(self).health <= old(self).health,
    {
        let hit = random(3);
        let alive = self.take_hit(hit);
        alive
    }

    /// Take a hit of the given strength. Returns whether the MOB is still
    /// alive.
    pub fn take_hit(&mut self, hit: u64) -> (alive: bool)
        ensures
            final(self).id == old(self).id,
            final(self).posn == old(self).posn,
            (final(self).health as int, alive) == old(self).damaged(hit),
    {
        if hit >= self.health {
            self.health = 0;
            false
        } else {
            self.health -= hit;
            true
        }
    }

    /// MOB "AI". Heuristically decide how to move the MOB. Returns the new
    /// position: the old one or one next to it.
    pub fn get_move(&self) -> (posn: usize)
        requires
            self.posn < usize::MAX,
        ensures
            exists|dirn: u64| dirn < 3 && posn == #[trigger] destination(self.posn, dirn),
            posn == self.posn || posn + 1 == self.posn || posn == self.posn + 1,
    {
        let dirn = random(3);
        let posn = self.move_for(dirn);
        posn
    }

    /// The position that the MOB moves to for the given direction roll.
    pub fn move_for(&self, dirn: u64) -> (posn: usize)
        requires
            dirn < 3,
            self.posn < usize::MAX,
        ensures
            posn == destination(self.posn, dirn),
    {
        let posn = self.posn;
        if dirn == 0 {
            if posn == 0 {
                return posn;
            }
            posn - 1
        } else if dirn == 1 {
            posn
        } else {
            posn + 1
        }
    }
}

} // verus!
