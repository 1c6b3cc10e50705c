//! What a player does to the game: entering it, giving orders, leaving it,
//! and seeing it. The play loop of a client calls these in turn and does
//! the talking.

use crate::field::{established, rendered, Loc, Object};
use crate::game::{ids_of, Game, GameView};
use crate::mob::Mob;
use crate::player::{offset, shifted, Player};
use crate::random::random;
use crate::text::{collect_chars, trim, trimmed};
use crate::DOOR_POSN;
use vstd::prelude::*;
use vstd::string::StrSliceExecFns;

verus! {

broadcast use vstd::std_specs::hash::group_hash_axioms;

/// An order that a player can give.
#[derive(Debug, Clone, Copy, PartialEq, Eq, Structural)]
pub enum Order {
    /// Step towards the near end (`h`).
    Left,
    /// Step towards the far end (`l`).
    Right,
    /// Rest (`.`).
    Rest,
    /// Quit the game (`q`).
    Quit,
}

/// The order that a command line stands for, if any: the line without the
/// whitespace around it must be one of the four command letters.
pub open spec fn order_of(line: Seq<char>) -> Option<Order> {
    Order::of_word(trimmed(line))
}

impl Order {
    /// The order that a command letter stands for, if any.
    pub open spec fn of_letter(letter: char) -> Option<Order> {
        if letter == 'h' {
            Some(Order::Left)
        } else if letter == 'l' {
            Some(Order::Right)
        } else if letter == '.' {
            Some(Order::Rest)
        } else if letter == 'q' {
            Some(Order::Quit)
        } else {
            None
        }
    }

    /// The order that a command word stands for, if any: the word must be
    /// a single command letter.
    pub open spec fn of_word(word: Seq<char>) -> Option<Order> {
        if word.len() == 1 {
            Order::of_letter(word[0])
        } else {
            None
        }
    }

    /// Reads a command word, which is a command line without the whitespace
    /// around it.
    pub fn from_word(word: &str) -> (order: Option<Order>)
        ensures
            order == Order::of_word(word@),
    {
        if word.unicode_len() != 1 {
            return None;
        }
        let letter = word.get_char(0);
        if letter == 'h' {
            Some(Order::Left)
        } else if letter == 'l' {
            Some(Order::Right)
        } else if letter == '.' {
            Some(Order::Rest)
        } else if letter == 'q' {
            Some(Order::Quit)
        } else {
            None
        }
    }

    /// Reads a command line. Lines that are no command give `None`, and are
    /// to be ignored.
    pub fn parse(line: &str) -> (order: Option<Order>)
        ensures
            order == order_of(line@),
    {
        Order::from_word(trim(line))
    }

    /// The step that a movement order asks for; none for the other orders.
    pub fn step(&self) -> (off: isize)
        ensures
            off == match self {
                Order::Left => -1isize,
                Order::Right => 1isize,
                _ => 0isize,
            },
    {
        match self {
            Order::Left => -1,
            Order::Right => 1,
            _ => 0,
        }
    }
}

/// What a player is told when the game is over for it.
#[derive(Debug, Clone, Copy, PartialEq, Eq, Structural)]
pub enum Notice {
    /// The last player has quit; a new game starts.
    NewGame,
    /// The player has quit and others play on.
    Quit,
    /// The players' health is used up.
    BoardWipe,
    /// The last player has escaped; a new game starts.
    AllEscaped,
    /// The player has escaped and others play on.
    Escaped,
}

impl Notice {
    /// The line that tells the player.
    pub open spec fn message(self) -> Seq<char> {
        match self {
            Notice::NewGame => "\rno more players, new game    \r"@,
            Notice::Quit => "\ryou quit, how sad    \r"@,
            Notice::BoardWipe => "\rboard wipe, game over    \r"@,
            Notice::AllEscaped => "\ry'all escaped, win!    \r"@,
            Notice::Escaped => "\ryou escaped, one down    \r"@,
        }
    }

    /// The line that tells the player.
    pub fn text(&self) -> (text: &'static str)
        ensures
            text@ == self.message(),
    {
        match self {
            Notice::NewGame => "\rno more players, new game    \r",
            Notice::Quit => "\ryou quit, how sad    \r",
            Notice::BoardWipe => "\rboard wipe, game over    \r",
            Notice::AllEscaped => "\ry'all escaped, win!    \r",
            Notice::Escaped => "\ryou escaped, one down    \r",
        }
    }
}

/// The first position from `from` on that holds no object; positions
/// beyond the field hold none.
pub open spec fn first_free(field: Seq<Loc>, from: int) -> int
    decreases field.len() - from,
{
    if from < 0 || from >= field.len() || field[from].object is None {
        from
    } else {
        first_free(field, from + 1)
    }
}

impl GameView {
    /// Whether `self` is `before` after a player with a terminal of the
    /// given width has entered under the ID `id`: the player stands at the
    /// first free position, as far towards the near end as feasible, and
    /// the field is established a margin beyond it.
    pub open spec fn entered_from(self, before: GameView, id: u64, width: Option<u16>) -> bool {
        let posn = first_free(before.field, 1);
        let grown = established(before.field, posn + Player::MARGIN);
        &&& id == before.next_player_id
        &&& self.next_player_id == id + 1
        &&& self.field == grown.update(
            posn,
            Loc { object: Some(Object::Player(id)), ..grown[posn] },
        )
        &&& self.players.dom() == before.players.dom().insert(id)
        &&& forall|other: u64| #[trigger]
            before.players.contains_key(other) ==> self.players[other] == before.players[other]
        &&& self.players[id].id == id
        &&& self.players[id].posn == posn
        &&& self.players[id].left == 1
        &&& self.players[id].width == match width {
            Some(width) => width,
            None => 80,
        }
        &&& self.players[id].display_cache@ == Seq::<char>::empty()
        &&& self.players[id].posn_cache == 0
        &&& self.turns == before.turns
        &&& self.monsters == before.monsters
        &&& self.next_monster_id == before.next_monster_id
        &&& self.health == before.health
    }

    /// The game after the player `id` has gone from it; when it was the
    /// last player, the game starts anew.
    pub open spec fn departed(self, id: u64) -> GameView {
        if self.players.remove(id).is_empty() {
            GameView::initial()
        } else {
            GameView { players: self.players.remove(id), ..self }
        }
    }

    /// The game with the position of the player `id` cleared.
    pub open spec fn vacated(self, id: u64) -> GameView {
        let posn = self.players[id].posn as int;
        GameView {
            field: self.field.update(posn, Loc { object: None, ..self.field[posn] }),
            ..self
        }
    }

    /// The game after the player `id` has stepped by `off` to the position
    /// `target`, which nothing stands on: the player's view slides along,
    /// and the field is established a margin beyond the player.
    pub open spec fn stepped(self, id: u64, off: isize, target: usize) -> GameView {
        let player = self.players[id];
        let grown = established(self.field, target + Player::MARGIN);
        let cleared = grown.update(
            player.posn as int,
            Loc { object: None, ..grown[player.posn as int] },
        );
        GameView {
            players: self.players.insert(
                id,
                Player {
                    posn: target,
                    left: Player::slid(player.left, player.width, off, target) as usize,
                    ..player
                },
            ),
            field: cleared.update(
                target as int,
                Loc { object: Some(Object::Player(id)), ..cleared[target as int] },
            ),
            ..self
        }
    }

    /// The game after the monster `id` has been slain: its record is gone
    /// and its position is clear.
    pub open spec fn slain(self, id: u64) -> GameView {
        let posn = self.monsters[id].posn as int;
        GameView {
            monsters: self.monsters.remove(id),
            field: self.field.update(posn, Loc { object: None, ..self.field[posn] }),
            ..self
        }
    }

    /// The monster that the player `id` runs into when it steps by `off`,
    /// if there is one.
    pub open spec fn opponent(self, id: u64, off: isize) -> Option<u64> {
        match shifted(self.players[id].posn, off) {
            Some(target) => match self.field[target as int].top_object() {
                Some(Object::Monster(mid)) => Some(mid),
                _ => None,
            },
            None => None,
        }
    }

    /// The game after the player `id` has tried to step by `off`, where a
    /// fight, if it comes to one, deals the monster a hit of the given
    /// strength.
    ///
    /// A step off the board does nothing. A step onto a monster is a fight:
    /// the monster takes the hit, and only if that slays it does the player
    /// take its place. Anything else in the way, on the floor too, blocks
    /// the step. Onto a clear position the player moves.
    pub open spec fn advanced(self, id: u64, off: isize, hit: u64) -> GameView {
        match shifted(self.players[id].posn, off) {
            Some(target) => match self.field[target as int].top_object() {
                Some(Object::Monster(mid)) => {
                    let mob = self.monsters[mid];
                    if mob.damaged(hit).1 {
                        GameView {
                            monsters: self.monsters.insert(
                                mid,
                                Mob { health: mob.damaged(hit).0 as u64, ..mob },
                            ),
                            ..self
                        }
                    } else {
                        self.slain(mid).stepped(id, off, target)
                    }
                },
                Some(_) => self,
                None => self.stepped(id, off, target),
            },
            None => self,
        }
    }

    /// Whether the game is small enough for the machine: positions, with a
    /// screen's width added, stay below the largest signed offset.
    pub open spec fn fits(self) -> bool {
        self.field.len() + 0x1_0000 < isize::MAX
    }

    /// Whether the game still fits after a step has made the field one
    /// position longer.
    pub open spec fn fits_a_step(self) -> bool {
        self.field.len() + 0x1_0001 < isize::MAX
    }

    /// The line that the player `id` sees: as many positions as its
    /// terminal is wide, with the player as far from the left edge as its
    /// view offset says.
    pub open spec fn line_for(self, id: u64) -> Seq<char> {
        let player = self.players[id];
        let left = player.posn - player.left;
        rendered(self.field, left, left + player.width)
    }

    /// Whether the screen of the player `id` is out of date: the player has
    /// moved, or its line has changed, since its screen was last drawn.
    pub open spec fn stale(self, id: u64) -> bool {
        let player = self.players[id];
        player.posn != player.posn_cache || self.line_for(id) != player.display_cache@
    }

    /// Whether `self` is `before` with the screen of the player `id` drawn.
    pub open spec fn drawn_from(self, before: GameView, id: u64) -> bool {
        let player = before.players[id];
        &&& self.players.dom() == before.players.dom()
        &&& forall|other: u64| #[trigger]
            before.players.contains_key(other) && other != id ==> self.players[other]
                == before.players[other]
        &&& self.players[id].id == player.id
        &&& self.players[id].posn == player.posn
        &&& self.players[id].width == player.width
        &&& self.players[id].left == player.left
        &&& self.players[id].display_cache@ == before.line_for(id)
        &&& self.players[id].posn_cache == player.posn
        &&& self.next_player_id == before.next_player_id
        &&& self.field == before.field
        &&& self.turns == before.turns
        &&& self.monsters == before.monsters
        &&& self.next_monster_id == before.next_monster_id
        &&& self.health == before.health
    }

    /// Whether `self` is what `before` can become when the player `id`
    /// rests or moves as ordered: a rest heals by less than 2, a step is
    /// taken with a hit of a strength below 3 in store.
    pub open spec fn obeyed_from(self, before: GameView, id: u64, order: Order) -> bool {
        match order {
            Order::Left => exists|hit: u64|
                hit < 3 && self == #[trigger] before.advanced(id, -1isize, hit),
            Order::Right => exists|hit: u64|
                hit < 3 && self == #[trigger] before.advanced(id, 1isize, hit),
            Order::Rest => exists|amount: u64|
                amount < 2 && self == #[trigger] before.rested(amount),
            Order::Quit => false,
        }
    }

    /// Whether `self` and `reaction` are what comes of `before` when the
    /// player `id` looks at the game: if the game is over for the player,
    /// the player is told and is gone; else its screen is drawn where it is
    /// out of date.
    pub open spec fn shown_from(self, before: GameView, id: u64, reaction: ReactionView) -> bool {
        match before.ending(id) {
            Some(notice) => reaction == ReactionView::Bye(notice) && self == before.departed(id),
            None => {
                &&& self.drawn_from(before, id)
                &&& reaction == ReactionView::Show(
                    if before.stale(id) {
                        Some(
                            FrameView {
                                line: before.line_for(id),
                                cursor: before.players[id].left,
                            },
                        )
                    } else {
                        None
                    },
                )
                &&& !before.stale(id) ==> self == before
            },
        }
    }

    /// How the game ends for the player `id`, if it does: with the health
    /// used up, or at the door.
    pub open spec fn ending(self, id: u64) -> Option<Notice> {
        if self.health == 0 {
            Some(Notice::BoardWipe)
        } else if self.players[id].posn >= DOOR_POSN {
            if self.players.remove(id).is_empty() {
                Some(Notice::AllEscaped)
            } else {
                Some(Notice::Escaped)
            }
        } else {
            None
        }
    }
}

impl Game {
    /// Lets a new player into the game and returns its ID. The player
    /// starts as far to the left as feasible.
    pub fn enter(&mut self, width: Option<u16>) -> (id: u64)
        requires
            old(self)@.wf(),
            old(self)@.fits(),
            old(self).next_player_id < u64::MAX,
            width matches Some(w) ==> w >= Player::MARGIN,
        ensures
            final(self)@.entered_from(old(self)@, id, width),
            final(self)@.wf(),
    {
        let player_id = self.next_player_id;
        self.next_player_id = player_id + 1;
        let mut player = Player::new(player_id, width);
        let mut posn = player.posn;
        let len = self.field.len();
        while self.field.has_object(posn)
            invariant
                self@ == (GameView { next_player_id: self.next_player_id, ..old(self)@ }),
                1 <= posn <= len,
                len == self@.field.len(),
                first_free(self@.field, posn as int) == first_free(self@.field, 1),
            decreases len - posn,
        {
            posn += 1;
        }
        player.posn = posn;
        self.field.establish(posn + Player::MARGIN);
        self.field.set_object(posn, Some(Object::Player(player_id)));
        self.players.insert(player_id, player);
        player_id
    }

    /// Takes the player `id` out of the game for good, leaving its mark on
    /// the field, and starts the game anew if nobody is left.
    fn depart(&mut self, id: u64)
        requires
            old(self)@.wf(),
            old(self)@.players.contains_key(id),
        ensures
            final(self)@ == old(self)@.departed(id),
            final(self)@.wf(),
    {
        self.players.remove(&id);
        if self.players.is_empty() {
            *self = Game::default();
        } else {
        }
    }

    /// The player `id` quits: its position is cleared and it leaves the
    /// game. The notice tells whether others play on.
    pub fn leave(&mut self, id: u64) -> (notice: Notice)
        requires
            old(self)@.wf(),
            old(self)@.players.contains_key(id),
        ensures
            final(self)@ == old(self)@.vacated(id).departed(id),
            notice == if old(self)@.players.remove(id).is_empty() {
                Notice::NewGame
            } else {
                Notice::Quit
            },
            final(self)@.wf(),
    {
        let posn = self.players.get(&id).unwrap().posn;
        self.field.set_object(posn, None);
        self.players.remove(&id);
        if self.players.is_empty() {
            *self = Game::default();
            Notice::NewGame
        } else {
            Notice::Quit
        }
    }

    /// Ends the game for the player `id` where it is over: when the shared
    /// health is used up, or when the player has reached the door. The
    /// player then leaves the game, and the notice says why. Otherwise
    /// nothing changes.
    pub fn outcome(&mut self, id: u64) -> (notice: Option<Notice>)
        requires
            old(self)@.wf(),
            old(self)@.players.contains_key(id),
        ensures
            notice == old(self)@.ending(id),
            final(self)@ == if notice is Some {
                old(self)@.departed(id)
            } else {
                old(self)@
            },
            final(self)@.wf(),
    {
        if self.health == 0 {
            self.depart(id);
            return Some(Notice::BoardWipe);
        }
        if self.players.get(&id).unwrap().posn >= DOOR_POSN {
            self.depart(id);
            if self.players.is_empty() {
                return Some(Notice::AllEscaped);
            }
            return Some(Notice::Escaped);
        }
        None
    }
}

/// What to draw on a player's screen.
#[derive(Debug, Clone, PartialEq, Eq)]
pub struct Frame {
    /// The line to show.
    pub line: String,
    /// Where on the line the cursor goes: the column of the player.
    pub cursor: usize,
}

/// The mathematical value of a [`Frame`].
pub struct FrameView {
    pub line: Seq<char>,
    pub cursor: usize,
}

impl View for Frame {
    type V = FrameView;

    open spec fn view(&self) -> FrameView {
        FrameView { line: self.line@, cursor: self.cursor }
    }
}

/// What the play loop does after one round.
#[derive(Debug, Clone, PartialEq, Eq)]
pub enum Reaction {
    /// The line was no command: nothing has happened.
    Ignore,
    /// The game is over for this player: say so and stop.
    Bye(Notice),
    /// The game goes on: draw the frame if there is one.
    Show(Option<Frame>),
}

/// The mathematical value of a [`Reaction`].
pub enum ReactionView {
    Ignore,
    Bye(Notice),
    Show(Option<FrameView>),
}

impl View for Reaction {
    type V = ReactionView;

    open spec fn view(&self) -> ReactionView {
        match self {
            Reaction::Ignore => ReactionView::Ignore,
            Reaction::Bye(notice) => ReactionView::Bye(*notice),
            Reaction::Show(frame) => ReactionView::Show(
                match frame {
                    Some(frame) => Some(frame@),
                    None => None,
                },
            ),
        }
    }
}

impl Game {
    /// Moves the player `id` by `off` to the position `target`, which no
    /// object stands on.
    fn step_to(&mut self, id: u64, off: isize, target: usize)
        requires
            old(self)@.wf(),
            old(self)@.fits(),
            old(self)@.players.contains_key(id),
            off == -1 || off == 1,
            shifted(old(self)@.players[id].posn, off) == Some(target),
            old(self)@.field[target as int].object is None,
        ensures
            final(self)@ == old(self)@.stepped(id, off, target),
            final(self)@.wf(),
    {
        let mut player = self.players.remove(&id).unwrap();
        let posn = player.posn;
        player.adjust_display(off);
        self.field.establish(target + Player::MARGIN);
        player.posn = target;
        self.field.set_object(posn, None);
        self.field.set_object(target, Some(Object::Player(id)));
        self.players.insert(id, player);
        assert(self@.players =~= old(self)@.stepped(id, off, target).players);
    }

    /// Takes the monster `id` out of the game.
    fn slay(&mut self, id: u64)
        requires
            old(self)@.wf(),
            old(self)@.monsters.contains_key(id),
        ensures
            final(self)@ == old(self)@.slain(id),
            final(self)@.wf(),
    {
        let posn = self.monsters.remove(&id).unwrap().posn;
        self.field.set_object(posn, None);
    }

    /// Whether the game is small enough for the machine.
    pub fn fits(&self) -> (ok: bool)
        ensures
            ok == self@.fits(),
    {
        self.field.len() < isize::MAX as usize - 0x1_0000
    }

    /// Whether the game still fits after a step has made the field one
    /// position longer.
    pub fn fits_a_step(&self) -> (ok: bool)
        ensures
            ok == self@.fits_a_step(),
    {
        self.field.len() < isize::MAX as usize - 0x1_0001
    }

    /// The monster that the player `id` runs into when it steps by `off`,
    /// if there is one.
    pub fn opponent(&self, id: u64, off: isize) -> (opponent: Option<u64>)
        requires
            self@.wf(),
            self@.fits(),
            self@.players.contains_key(id),
            off == -1 || off == 1,
        ensures
            opponent == self@.opponent(id, off),
            opponent matches Some(mid) ==> self@.monsters.contains_key(mid),
    {
        let posn = self.players.get(&id).unwrap().posn;
        match offset(posn, off) {
            Some(target) => {
                    match self.field.loc(target).top() {
                    Some(Object::Monster(mid)) => Some(*mid),
                    _ => None,
                }
            },
            None => None,
        }
    }

    /// The player `id` tries to step by `off`; in a fight the monster takes
    /// a hit of the given strength.
    pub fn advance_with(&mut self, id: u64, off: isize, hit: u64)
        requires
            old(self)@.wf(),
            old(self)@.fits(),
            old(self)@.players.contains_key(id),
            off == -1 || off == 1,
        ensures
            final(self)@ == old(self)@.advanced(id, off, hit),
            final(self)@.wf(),
            old(self)@.field.len() <= final(self)@.field.len() <= old(self)@.field.len() + 1,
    {
        let posn = self.players.get(&id).unwrap().posn;
        if let Some(target) = offset(posn, off) {
            let top = match self.field.loc(target).top() {
                Some(object) => Some(*object),
                None => None,
            };
            match top {
                Some(Object::Monster(mid)) => {
                    // Combat.
                    let mut mob = *self.monsters.get(&mid).unwrap();
                    if mob.take_hit(hit) {
                        self.monsters.insert(mid, mob);
                    } else {
                        // Killed the monster.
                        self.slay(mid);
                        self.step_to(id, off, target);
                    }
                },
                // Movement blocked.
                Some(_) => {},
                // Just move.
                None => {
                    self.step_to(id, off, target);
                },
            }
        }
    }

    /// The player `id` tries to step by `off`, one position to the left or
    /// to the right. If a monster is in the way the player hits it, with a
    /// strength below 3 that chance decides.
    pub fn advance(&mut self, id: u64, off: isize)
        requires
            old(self)@.wf(),
            old(self)@.fits(),
            old(self)@.players.contains_key(id),
            off == -1 || off == 1,
        ensures
            exists|hit: u64|
                hit < 3 && final(self)@ == #[trigger] old(self)@.advanced(id, off, hit),
            final(self)@.wf(),
            old(self)@.field.len() <= final(self)@.field.len() <= old(self)@.field.len() + 1,
    {
        let hit = if self.opponent(id, off).is_some() {
            random(3)
        } else {
            0
        };
        self.advance_with(id, off, hit);
    }

    /// Draws the screen of the player `id` if it is out of date: returns
    /// the line to show and the cursor's column, and notes in the player's
    /// record what was drawn. Returns `None`, and changes nothing, if the
    /// screen is up to date.
    pub fn draw(&mut self, id: u64) -> (frame: Option<Frame>)
        requires
            old(self)@.wf(),
            old(self)@.fits(),
            old(self)@.players.contains_key(id),
        ensures
            frame is Some <==> old(self)@.stale(id),
            frame matches Some(f) ==> f@ == (FrameView {
                line: old(self)@.line_for(id),
                cursor: old(self)@.players[id].left,
            }),
            final(self)@.drawn_from(old(self)@, id),
            frame is None ==> final(self)@ == old(self)@,
            final(self)@.wf(),
    {
        let player = self.players.get(&id).unwrap();
        // Absolute position of player in field coords.
        let posn = player.posn;
        // Offset of player in terminal view.
        let offset = player.left;
        // Width of display in characters.
        let width = player.width as usize;
        // Absolute position of left edge in field coords.
        let left = posn - offset;
        // Absolute position of right edge in field coords.
        let right = left + width;
        // Render player board view.
        let mut board = self.field.render(left, right);

        // Render player icons.
        let ids = ids_of(&self.players);
        let mut i: usize = 0;
        while i < ids.len()
            invariant
                i <= ids@.len(),
                self@ == old(self)@,
                self@.wf(),
                left <= right,
                ids@.to_set() == self@.players.dom(),
                board@ == rendered(self@.field, left as int, right as int),
            decreases ids@.len() - i,
        {
            let other = ids[i];
            let at = self.players.get(&other).unwrap().posn;
            if at >= left && at < right {
                board.set(at - left, '@');
            }
            i += 1;
        }

        // Set up the render and hand it out.
        let render = collect_chars(board);
        let player = self.players.get(&id).unwrap();
        if posn == player.posn_cache && render == player.display_cache {
            return None;
        }
        let mut player = self.players.remove(&id).unwrap();
        player.display_cache = render.clone();
        player.posn_cache = posn;
        self.players.insert(id, player);
        Some(Frame { line: render, cursor: offset })
    }
}

impl Game {
    /// One round of a player's play loop. `line` is what the player sent,
    /// if anything came in time.
    ///
    /// A line that is no command is ignored, and nothing else happens in
    /// this round. On the order to quit the player leaves at once. A rest or
    /// a step is carried out and the game takes a turn. After that, and
    /// also when no line came, the player learns how the game stands: that
    /// it is over for it, or what its screen shows now.
    pub fn play(&mut self, id: u64, line: Option<&str>) -> (reaction: Reaction)
        requires
            old(self)@.wf(),
            old(self)@.fits_a_step(),
            old(self)@.players.contains_key(id),
            old(self).turns < u64::MAX,
            old(self).next_monster_id < u64::MAX,
        ensures
            final(self)@.wf(),
            match line {
                None => final(self)@.shown_from(old(self)@, id, reaction@),
                Some(line) => match order_of(line@) {
                    None => reaction@ == ReactionView::Ignore && final(self)@ == old(self)@,
                    Some(Order::Quit) => reaction@ == ReactionView::Bye(
                        if old(self)@.players.remove(id).is_empty() {
                            Notice::NewGame
                        } else {
                            Notice::Quit
                        },
                    ) && final(self)@ == old(self)@.vacated(id).departed(id),
                    Some(order) => exists|acted: GameView, turned: GameView|
                        {
                            &&& #[trigger] acted.obeyed_from(old(self)@, id, order)
                            &&& #[trigger] turned.turned_from(acted)
                            &&& final(self)@.shown_from(turned, id, reaction@)
                        },
                },
            },
    {
        if let Some(line) = line {
            match Order::parse(line) {
                Some(Order::Quit) => {
                    return Reaction::Bye(self.leave(id));
                },
                Some(Order::Rest) => {
                    self.rest();
                },
                Some(Order::Left) => {
                    self.advance(id, -1);
                },
                Some(Order::Right) => {
                    self.advance(id, 1);
                },
                None => {
                    return Reaction::Ignore;
                },
            }
            let ghost acted = self@;
            self.turn();
            let reaction = self.look(id);
            assert(acted.obeyed_from(old(self)@, id, order_of(line@)->Some_0));
            reaction
        } else {
            self.look(id)
        }
    }

    /// Tells the player `id` how the game stands: that it is over for the
    /// player, who is then gone, or what the player's screen shows.
    pub fn look(&mut self, id: u64) -> (reaction: Reaction)
        requires
            old(self)@.wf(),
            old(self)@.fits(),
            old(self)@.players.contains_key(id),
        ensures
            final(self)@.shown_from(old(self)@, id, reaction@),
            final(self)@.wf(),
    {
        match self.outcome(id) {
            Some(notice) => Reaction::Bye(notice),
            None => Reaction::Show(self.draw(id)),
        }
    }
}

} // verus!
