//! Model and maintain the game playfield.

use crate::DOOR_POSN;
use vstd::prelude::*;

verus! {

/// Game object.
#[derive(Debug, Clone, Copy, PartialEq, Eq, Structural)]
pub enum Object {
    /// Rocks are immovable and inert. A rock blocks the near end.
    Rock,
    /// Monsters are by ID.
    Monster(u64),
    /// Players are by ID.
    Player(u64),
    /// The door is the exit square, at the far end.
    Door,
}

impl Object {
    /// The display character of an object.
    pub open spec fn glyph(self) -> char {
        match self {
            Object::Rock => '#',
            Object::Monster(_) => 'M',
            Object::Player(_) => '@',
            Object::Door => '+',
        }
    }

    /// Get the display character associated with an object.
    pub fn render(&self) -> (c: char)
        ensures
            c == self.glyph(),
    {
        match self {
            Object::Rock => '#',
            Object::Monster(_) => 'M',
            Object::Player(_) => '@',
            Object::Door => '+',
        }
    }
}

/// Things that can be in a location.
#[derive(Debug, Clone, Copy, PartialEq, Eq)]
pub struct Loc {
    /// Object in the location.
    pub object: Option<Object>,
    /// Floor for the location.
    pub floor: Option<Object>,
}

impl Loc {
    /// The location with nothing in it.
    pub open spec fn empty() -> Loc {
        Loc { object: None, floor: None }
    }

    /// The topmost object at the location: the object if there is one, else
    /// the floor.
    pub open spec fn top_object(self) -> Option<Object> {
        match self.object {
            Some(object) => Some(object),
            None => self.floor,
        }
    }

    /// The display character of the location: that of its topmost object,
    /// or `'.'` when it is empty.
    pub open spec fn glyph(self) -> char {
        match self.top_object() {
            Some(object) => object.glyph(),
            None => '.',
        }
    }

    /// Get the topmost object at the location.
    pub fn top(&self) -> (top: Option<&Object>)
        ensures
            match top {
                Some(object) => self.top_object() == Some(*object),
                None => self.top_object() is None,
            },
    {
        match &self.object {
            Some(object) => Some(object),
            None => match &self.floor {
                Some(floor) => Some(floor),
                None => None,
            },
        }
    }

    /// Get the display character for the object at the location, or '.' for
    /// an empty location.
    pub fn render(&self) -> (c: char)
        ensures
            c == self.glyph(),
    {
        match self.top() {
            Some(object) => object.render(),
            None => '.',
        }
    }
}

impl Default for Loc {
    fn default() -> (loc: Loc)
        ensures
            loc == Loc::empty(),
    {
        Loc { object: None, floor: None }
    }
}

/// The playfield is a long vector of locations. It is created lazily as
/// needed, which would allow infinite playfields.
pub struct Field(Vec<Loc>);

/// A playfield grown, if need be, so that position `posn` exists. New
/// locations are empty.
pub open spec fn established(field: Seq<Loc>, posn: int) -> Seq<Loc> {
    if field.len() <= posn {
        field + Seq::new((posn + 1 - field.len()) as nat, |i: int| Loc::empty())
    } else {
        field
    }
}

/// The display characters of the positions from `left` up to `right`.
/// Positions that do not exist yet are blank.
pub open spec fn rendered(field: Seq<Loc>, left: int, right: int) -> Seq<char> {
    Seq::new(
        (right - left) as nat,
        |i: int|
            if left + i < field.len() {
                field[left + i].glyph()
            } else {
                ' '
            },
    )
}

/// The playfield at the start of a game: a rock at the near end and the
/// door on the floor at the far end.
pub open spec fn initial_field() -> Seq<Loc> {
    let rock = seq![Loc { object: Some(Object::Rock), floor: None }];
    let grown = established(rock, DOOR_POSN as int);
    grown.update(DOOR_POSN as int, Loc { floor: Some(Object::Door), ..grown[DOOR_POSN as int] })
}

impl View for Field {
    type V = Seq<Loc>;

    closed spec fn view(&self) -> Seq<Loc> {
        self.0@
    }
}

impl Field {
    /// Make sure that the given location exists by growing the vector as
    /// necessary.
    pub fn establish(&mut self, posn: usize)
        requires
            posn < usize::MAX,
        ensures
            final(self)@ == established(old(self)@, posn as int),
    {
        while self.0.len() <= posn
            invariant
                posn < usize::MAX,
                old(self)@.len() <= self.0@.len(),
                self.0@.len() <= posn + 1 || self.0@ == old(self)@,
                self.0@ == old(self)@ + Seq::new(
                    (self.0@.len() - old(self)@.len()) as nat,
                    |i: int| Loc::empty(),
                ),
            decreases posn + 1 - self.0@.len(),
        {
            self.0.push(Loc::default());
        }
    }

    /// Insert the given object at the given position.
    pub fn insert(&mut self, object: Object, posn: usize)
        requires
            posn < usize::MAX,
        ensures
            final(self)@ == established(old(self)@, posn as int).update(
                posn as int,
                Loc { object: Some(object), ..established(old(self)@, posn as int)[posn as int] },
            ),
    {
        self.establish(posn);
        let loc = self.0[posn];
        self.0.set(posn, Loc { object: Some(object), floor: loc.floor });
    }

    /// Insert the given floor object at the given position.
    pub fn insert_floor(&mut self, object: Object, posn: usize)
        requires
            posn < usize::MAX,
        ensures
            final(self)@ == established(old(self)@, posn as int).update(
                posn as int,
                Loc { floor: Some(object), ..established(old(self)@, posn as int)[posn as int] },
            ),
    {
        self.establish(posn);
        let loc = self.0[posn];
        self.0.set(posn, Loc { object: loc.object, floor: Some(object) });
    }

    /// Does the position have a (non-floor) object?
    pub fn has_object(&self, posn: usize) -> (found: bool)
        ensures
            found == (posn < self@.len() && self@[posn as int].object is Some),
    {
        posn < self.0.len() && self.0[posn].object.is_some()
    }

    /// Does the position have a monster?
    pub fn has_monster(&self, posn: usize) -> (found: bool)
        requires
            posn < self@.len(),
        ensures
            found == (self@[posn as int].object matches Some(Object::Monster(_))),
    {
        match self.0[posn].object {
            Some(Object::Monster(_)) => true,
            _ => false,
        }
    }

    /// Does the position have a player avatar?
    pub fn has_player(&self, posn: usize) -> (found: bool)
        requires
            posn < self@.len(),
        ensures
            found == (self@[posn as int].object matches Some(Object::Player(_))),
    {
        match self.0[posn].object {
            Some(Object::Player(_)) => true,
            _ => false,
        }
    }

    /// Get the render chars for the given span. Note that not-yet-created
    /// locations will be blank.
    pub fn render(&self, left: usize, right: usize) -> (chars: Vec<char>)
        requires
            left <= right,
            left <= self@.len(),
        ensures
            chars@ == rendered(self@, left as int, right as int),
    {
        let cright = if right < self.0.len() {
            right
        } else {
            self.0.len()
        };
        let mut result: Vec<char> = Vec::new();
        let mut posn = left;
        while posn < cright
            invariant
                left <= posn <= cright,
                cright <= self.0@.len(),
                cright <= right,
                result@ == rendered(self@, left as int, posn as int),
            decreases cright - posn,
        {
            result.push(self.0[posn].render());
            posn += 1;
        }
        while posn < right
            invariant
                cright <= posn <= right,
                left <= posn,
                cright == self.0@.len() || cright == right,
                result@ == rendered(self@, left as int, posn as int),
            decreases right - posn,
        {
            result.push(' ');
            posn += 1;
        }
        result
    }

    /// How much of the playfield is currently live?
    pub fn len(&self) -> (n: usize)
        ensures
            n == self@.len(),
    {
        self.0.len()
    }

    /// The location at the given position.
    pub fn loc(&self, posn: usize) -> (loc: &Loc)
        requires
            posn < self@.len(),
        ensures
            *loc == self@[posn as int],
    {
        &self.0[posn]
    }

    /// Puts the given object, or none, at a position that exists already.
    pub fn set_object(&mut self, posn: usize, object: Option<Object>)
        requires
            posn < old(self)@.len(),
        ensures
            final(self)@ == old(self)@.update(
                posn as int,
                Loc { object, ..old(self)@[posn as int] },
            ),
    {
        let loc = self.0[posn];
        self.0.set(posn, Loc { object, floor: loc.floor });
    }
}

impl Default for Field {
    fn default() -> (field: Field)
        ensures
            field@ == initial_field(),
    {
        let mut locs: Vec<Loc> = Vec::new();
        locs.push(Loc { object: Some(Object::Rock), floor: None });
        let mut field = Field(locs);
        field.insert_floor(Object::Door, DOOR_POSN);
        field
    }
}

} // verus!
