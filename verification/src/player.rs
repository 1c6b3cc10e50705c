//! Player avatar state and implementation. This is only those attributes
//! unique to each client.

use vstd::math::{max, min};
use vstd::prelude::*;

verus! {

/// Player avatar state.
pub struct Player {
    /// Player id. Globally unique across all sessions.
    pub id: u64,
    /// Position in field coordinates.
    pub posn: usize,
    /// Terminal line width in characters.
    pub width: u16,
    /// Offset of player in terminal view in range 0..width.
    pub left: usize,
    /// Player prior terminal view line. Used for refresh.
    pub display_cache: String,
    /// Player prior terminal position. Used for refresh.
    pub posn_cache: usize,
}

/// The position `dx` away from `x`, unless it would be off the board.
pub open spec fn shifted(x: usize, dx: isize) -> Option<usize> {
    if x + dx < 0 {
        None
    } else {
        Some((x + dx) as usize)
    }
}

/// Offset `x` by `dx`. Return `None` if the offset would be off the board,
/// else the new position.
pub fn offset(x: usize, dx: isize) -> (moved: Option<usize>)
    requires
        x <= isize::MAX,
        dx > isize::MIN,
        x + dx <= isize::MAX,
    ensures
        moved == shifted(x, dx),
{
    if dx < 0 && (x as isize) < -dx {
        None
    } else {
        Some((x as isize + dx) as usize)
    }
}

impl Player {
    /// Desired left/right margin on terminal in characters.
    pub const MARGIN: usize = 3;

    /// Where the view offset `left` of a terminal `width` wide goes when
    /// the player steps by `dirn` to `posn`: along with the player, but kept
    /// a margin away from both edges where the terminal is wide enough, and
    /// never beyond the player's position; 0 if it would fall off the board.
    pub open spec fn slid(left: usize, width: u16, dirn: isize, posn: usize) -> int {
        match shifted(left, dirn) {
            Some(left) => min(
                max(min(left as int, width - Player::MARGIN), Player::MARGIN as int),
                posn as int,
            ),
            None => 0,
        }
    }

    /// Make a new player state with the given `id` and `width`; the width
    /// is 80 where none is given.
    pub fn new(id: u64, width: Option<u16>) -> (player: Player)
        ensures
            player.id == id,
            player.posn == 1,
            player.left == 1,
            player.width == match width {
                Some(width) => width,
                None => 80,
            },
            player.display_cache@ == Seq::<char>::empty(),
            player.posn_cache == 0,
    {
        Player {
            id,
            posn: 1,
            left: 1,
            width: match width {
                Some(width) => width,
                None => 80,
            },
            display_cache: String::new(),
            posn_cache: 0,
        }
    }

    /// Slide the terminal view window for the player to where it is
    /// supposed to be after a step by `dirn`.
    pub fn adjust_display(&mut self, dirn: isize)
        requires
            old(self).posn <= isize::MAX,
            old(self).left <= isize::MAX,
            dirn > isize::MIN,
            old(self).posn + dirn <= isize::MAX,
            old(self).left + dirn <= isize::MAX,
            old(self).posn + dirn >= 0,
            old(self).width >= 3,
        ensures
            final(self).left == Player::slid(
                old(self).left,
                old(self).width,
                dirn,
                (old(self).posn + dirn) as usize,
            ),
            final(self).id == old(self).id,
            final(self).posn == old(self).posn,
            final(self).width == old(self).width,
            final(self).display_cache == old(self).display_cache,
            final(self).posn_cache == old(self).posn_cache,
    {
        if let Some(posn) = offset(self.posn, dirn) {
            match offset(self.left, dirn) {
                Some(left) => {
                    let margin = Player::MARGIN;
                    let edge = self.width as usize - margin;
                    let inside = if left < edge {
                        left
                    } else {
                        edge
                    };
                    let kept = if inside > margin {
                        inside
                    } else {
                        margin
                    };
                    self.left = if kept < posn {
                        kept
                    } else {
                        posn
                    };
                },
                None => {
                    self.left = 0;
                },
            }
        }
    }
}

} // verus!
