//! The overall game state for the running game. This includes the shared
//! player stats, the monster records, the playfield, etc. Also methods to
//! update the state.

use crate::field::{initial_field, Field, Loc, Object};
use crate::mob::Mob;
use crate::player::Player;
use crate::random::random;
use crate::MAX_HEALTH;
use std::collections::HashMap;
use vstd::prelude::*;
use vstd::std_specs::hash::spec_keys_iter;
use vstd::std_specs::iter::IteratorSpec;

verus! {

broadcast use vstd::std_specs::hash::group_hash_axioms;

/// Game state.
pub struct Game {
    /// Player ID for *next* client to enter.
    pub next_player_id: u64,
    /// Player ID map.
    pub players: HashMap<u64, Player>,
    /// Playfield.
    pub field: Field,
    /// Clock: turns passed.
    pub turns: u64,
    /// MOB ID map.
    pub monsters: HashMap<u64, Mob>,
    /// Player ID for *next* MOB to enter.
    pub next_monster_id: u64,
    /// Shared player health.
    pub health: u64,
}

/// The mathematical value of a [`Game`].
pub struct GameView {
    pub next_player_id: u64,
    pub players: Map<u64, Player>,
    pub field: Seq<Loc>,
    pub turns: u64,
    pub monsters: Map<u64, Mob>,
    pub next_monster_id: u64,
    pub health: u64,
}

impl View for Game {
    type V = GameView;

    open spec fn view(&self) -> GameView {
        GameView {
            next_player_id: self.next_player_id,
            players: self.players@,
            field: self.field@,
            turns: self.turns,
            monsters: self.monsters@,
            next_monster_id: self.next_monster_id,
            health: self.health,
        }
    }
}

impl GameView {
    /// The game at its start: no players, no monsters, full health.
    pub open spec fn initial() -> GameView {
        GameView {
            next_player_id: 1,
            players: Map::empty(),
            field: initial_field(),
            turns: 0,
            monsters: Map::empty(),
            next_monster_id: 1,
            health: MAX_HEALTH,
        }
    }

    /// Whether the monster `id` is recorded consistently: under its own ID,
    /// an ID that has been given out, and standing on the field where its
    /// record says.
    pub open spec fn monster_placed(self, id: u64) -> bool {
        let mob = self.monsters[id];
        &&& mob.id == id
        &&& id < self.next_monster_id
        &&& mob.posn < self.field.len()
        &&& self.field[mob.posn as int].object == Some(Object::Monster(id))
    }

    /// Whether the player `id` is recorded consistently: under its own ID,
    /// an ID that has been given out, standing on the field where its
    /// record says, away from the near end and with the field established a
    /// margin beyond it, and with a view that is wide enough and starts no
    /// further right than where the player stands.
    pub open spec fn player_placed(self, id: u64) -> bool {
        let player = self.players[id];
        &&& player.id == id
        &&& id < self.next_player_id
        &&& 1 <= player.posn
        &&& player.posn + Player::MARGIN < self.field.len()
        &&& self.field[player.posn as int].object == Some(Object::Player(id))
        &&& player.left <= player.posn
        &&& player.left <= player.width
        &&& player.width >= Player::MARGIN
    }

    /// The consistency of a game state: records and field agree, and the
    /// rock stands at the near end.
    pub open spec fn wf(self) -> bool {
        &&& self.health <= MAX_HEALTH
        &&& self.field.len() > 0
        &&& self.field[0].object == Some(Object::Rock)
        &&& self.players.dom().finite()
        &&& self.monsters.dom().finite()
        &&& forall|id: u64| #[trigger] self.monsters.contains_key(id) ==> self.monster_placed(id)
        &&& forall|id: u64| #[trigger] self.players.contains_key(id) ==> self.player_placed(id)
        &&& forall|posn: int|
            0 <= posn < self.field.len() ==> self.monster_known(#[trigger] self.field[posn], posn)
    }

    /// Whether a monster that stands in the location `loc`, which is the
    /// one at `posn`, is the one recorded there; no monster is ever part of
    /// the floor.
    pub open spec fn monster_known(self, loc: Loc, posn: int) -> bool {
        &&& !(loc.floor matches Some(Object::Monster(_)))
        &&& match loc.object {
            Some(Object::Monster(id)) => self.monsters.contains_key(id) && self.monsters[id].posn
                == posn,
            _ => true,
        }
    }

    /// Whether a monster stands at `posn`.
    pub open spec fn monster_at(self, posn: int) -> bool {
        0 <= posn < self.field.len() && self.field[posn].object matches Some(Object::Monster(_))
    }

    /// Whether the player `id` is attacked from the given side: a monster
    /// stands next to it there.
    pub open spec fn attacked_from(self, id: u64, right: bool) -> bool {
        self.players.contains_key(id) && self.monster_at(
            if right {
                self.players[id].posn + 1
            } else {
                self.players[id].posn - 1
            },
        )
    }

    /// All attacks on players: one for each player and each side on which a
    /// monster stands next to it.
    pub open spec fn attacks(self) -> Set<(u64, bool)> {
        Set::new(|a: (u64, bool)| self.attacked_from(a.0, a.1))
    }

    /// The game after the monsters have attacked: each attack costs one
    /// point of health, as long as there is any.
    pub open spec fn after_attacks(self) -> GameView {
        GameView {
            health: if self.health >= self.attacks().len() {
                (self.health - self.attacks().len()) as u64
            } else {
                0
            },
            ..self
        }
    }

    /// The game after a rest that heals by `amount`: health grows, up to its
    /// maximum.
    pub open spec fn rested(self, amount: u64) -> GameView {
        GameView {
            health: if self.health + amount < MAX_HEALTH {
                (self.health + amount) as u64
            } else {
                MAX_HEALTH
            },
            ..self
        }
    }

    /// Whether a monster is due: there is less than one for every 20
    /// positions of the field and less than one for every 5 turns passed.
    pub open spec fn spawn_due(self) -> bool {
        self.monsters.len() < self.field.len() / 20 && self.monsters.len() < self.turns / 5
    }

    /// The game after `mob` has entered it under the next monster ID, at its
    /// position.
    pub open spec fn spawned(self, mob: Mob) -> GameView {
        GameView {
            monsters: self.monsters.insert(mob.id, mob),
            field: self.field.update(
                mob.posn as int,
                Loc { object: Some(Object::Monster(mob.id)), ..self.field[mob.posn as int] },
            ),
            next_monster_id: (self.next_monster_id + 1) as u64,
            ..self
        }
    }

    /// Whether `spawn` can be what a turn brings: no monster unless one is
    /// due, and a monster only under the next monster ID, at a free position
    /// of the field and with a health between 3 and 5.
    pub open spec fn may_spawn(self, spawn: Option<Mob>) -> bool {
        match spawn {
            Some(mob) => {
                &&& (GameView { turns: (self.turns + 1) as u64, ..self }).spawn_due()
                &&& mob.id == self.next_monster_id
                &&& mob.posn < self.field.len()
                &&& self.field[mob.posn as int].object is None
                &&& 3 <= mob.health <= 5
            },
            None => true,
        }
    }

    /// The game after the first half of a turn: the clock has advanced, the
    /// monster `spawn`, if any, has entered, and the attacks are resolved.
    pub open spec fn turn_opened(self, spawn: Option<Mob>) -> GameView {
        let ticked = GameView { turns: (self.turns + 1) as u64, ..self };
        match spawn {
            Some(mob) => ticked.spawned(mob).after_attacks(),
            None => ticked.after_attacks(),
        }
    }

    /// Whether `self` is what `before` can become when its monsters move:
    /// the same monsters with the same health, each where it was or one step
    /// away, on a field of the same size with the same floor, and nothing
    /// else changed.
    pub open spec fn moved_from(self, before: GameView) -> bool {
        &&& self.next_player_id == before.next_player_id
        &&& self.players == before.players
        &&& self.turns == before.turns
        &&& self.next_monster_id == before.next_monster_id
        &&& self.health == before.health
        &&& self.field.len() == before.field.len()
        &&& forall|posn: int|
            0 <= posn < self.field.len() ==> (#[trigger] self.field[posn]).floor
                == before.field[posn].floor
        &&& self.monsters.dom() == before.monsters.dom()
        &&& forall|id: u64| #[trigger]
            self.monsters.contains_key(id) ==> {
                &&& self.monsters[id].id == before.monsters[id].id
                &&& self.monsters[id].health == before.monsters[id].health
                &&& before.monsters[id].posn - 1 <= self.monsters[id].posn
                    <= before.monsters[id].posn + 1
            }
    }

    /// Whether `self` is what `before` can become in one turn: the clock
    /// advances, a monster enters if chance and the rules bring one, the
    /// monsters next to players attack, and then the monsters move.
    pub open spec fn turned_from(self, before: GameView) -> bool {
        exists|spawn: Option<Mob>|
            before.may_spawn(spawn) && self.moved_from(#[trigger] before.turn_opened(spawn))
    }

    /// Whether the monster `id` can go to `posn`: it is another position
    /// than its own, it is on the field, and nothing is there, not even on
    /// the floor.
    pub open spec fn can_move(self, id: u64, posn: int) -> bool {
        &&& posn != self.monsters[id].posn
        &&& 0 <= posn < self.field.len()
        &&& self.field[posn].top_object() is None
    }

    /// The game after the monster `id` has tried to go to `posn`.
    pub open spec fn monster_moved(self, id: u64, posn: usize) -> GameView {
        if self.can_move(id, posn as int) {
            let mob = self.monsters[id];
            GameView {
                monsters: self.monsters.insert(id, Mob { posn, ..mob }),
                field: self.field.update(
                    mob.posn as int,
                    Loc { object: None, ..self.field[mob.posn as int] },
                ).update(
                    posn as int,
                    Loc { object: Some(Object::Monster(id)), ..self.field[posn as int] },
                ),
                ..self
            }
        } else {
            self
        }
    }
}

impl Game {
    /// Player rest actions heal the player: by one point or by none, as
    /// chance has it.
    pub fn rest(&mut self)
        requires
            old(self).health < u64::MAX,
        ensures
            exists|amount: u64| amount < 2 && final(self)@ == #[trigger] old(self)@.rested(amount),
            old(self)@.wf() ==> final(self)@.wf(),
    {
        let amount = random(2);
        self.heal(amount);
    }

    /// Heals the players by the given amount, up to the maximum health.
    pub fn heal(&mut self, amount: u64)
        requires
            old(self).health + amount <= u64::MAX,
        ensures
            final(self)@ == old(self)@.rested(amount),
    {
        let health = self.health + amount;
        self.health = if health < MAX_HEALTH {
            health
        } else {
            MAX_HEALTH
        };
    }

    /// Whether the turn that is under way brings a new monster.
    pub fn spawn_due(&self) -> (due: bool)
        ensures
            due == self@.spawn_due(),
    {
        let len = self.field.len();
        let nmonsters = self.monsters.len();
        nmonsters < len / 20 && (nmonsters as u64) < self.turns / 5
    }

    /// Lets a new monster into the game, at its position, which must be
    /// free.
    pub fn place_monster(&mut self, mob: Mob)
        requires
            old(self)@.wf(),
            mob.id == old(self).next_monster_id,
            old(self).next_monster_id < u64::MAX,
            mob.posn < old(self)@.field.len(),
            old(self)@.field[mob.posn as int].object is None,
        ensures
            final(self)@ == old(self)@.spawned(mob),
            final(self)@.wf(),
    {
        self.next_monster_id += 1;
        self.field.set_object(mob.posn, Some(Object::Monster(mob.id)));
        self.monsters.insert(mob.id, mob);
    }
}

impl Game {
    /// Moves the monster `id` to `posn` if it can go there, and leaves it
    /// where it is if not.
    pub fn move_monster(&mut self, id: u64, posn: usize)
        requires
            old(self)@.wf(),
            old(self)@.monsters.contains_key(id),
        ensures
            final(self)@ == old(self)@.monster_moved(id, posn),
            final(self)@.wf(),
    {
        let mob = *self.monsters.get(&id).unwrap();
        if posn == mob.posn || posn >= self.field.len() {
            return ;
        }
        if self.field.loc(posn).top().is_some() {
            return ;
        }
        self.field.set_object(mob.posn, None);
        self.field.set_object(posn, Some(Object::Monster(id)));
        self.monsters.insert(id, Mob { id: mob.id, posn, health: mob.health });
    }

    /// Resolves the monsters' attacks on the players.
    pub fn resolve_attacks(&mut self)
        requires
            old(self)@.wf(),
        ensures
            final(self)@ == old(self)@.after_attacks(),
            final(self)@.wf(),
    {
        let ids = ids_of(&self.players);
        let len = self.field.len();
        let ghost before = self@;
        let ghost done: Set<(u64, bool)> = Set::empty();
        let mut i: usize = 0;
        while i < ids.len()
            invariant
                i <= ids@.len(),
                before == old(self)@,
                len == before.field.len(),
                before.wf(),
                self@ == (GameView { health: self.health, ..before }),
                ids@.no_duplicates(),
                ids@.to_set() == before.players.dom(),
                done.finite(),
                forall|a: (u64, bool)|
                    done.contains(a) <==> ids@.take(i as int).contains(a.0) && before.attacked_from(
                        a.0,
                        a.1,
                    ),
                self.health == if before.health >= done.len() {
                    before.health - done.len()
                } else {
                    0
                },
            decreases ids@.len() - i,
        {
            let id = ids[i];
            let posn = self.players.get(&id).unwrap().posn;
            if self.field.has_monster(posn - 1) {
                if self.health > 0 {
                    self.health -= 1;
                }
                proof {
                    done = done.insert((id, false));
                }
            }
            if self.field.has_monster(posn + 1) {
                if self.health > 0 {
                    self.health -= 1;
                }
                proof {
                    done = done.insert((id, true));
                }
            }
            i += 1;
            proof {
                let now = ids@.take(i as int);
                assert forall|a: (u64, bool)|
                    done.contains(a) <==> now.contains(a.0) && before.attacked_from(a.0, a.1) by {
                    if a.0 == id {
                        assert(now[i - 1] == id);
                    }
                }
            }
        }
        proof {
            assert(ids@.take(i as int) =~= ids@);
            assert(done =~= before.attacks());
        }
    }
}

impl Game {
    /// Update non-player game state for a new tick: the clock advances, a
    /// monster may enter where one is due, the monsters next to players
    /// attack, and every monster may take a step.
    pub fn turn(&mut self)
        requires
            old(self)@.wf(),
            old(self).turns < u64::MAX,
            old(self).next_monster_id < u64::MAX,
        ensures
            final(self)@.wf(),
            final(self)@.turned_from(old(self)@),
    {
        // Bump the clock.
        self.turns += 1;

        // Spawn MOBs as needed.
        let ghost spawn: Option<Mob> = None;
        if self.spawn_due() {
            let len = self.field.len();
            let posn = random(len as u64) as usize;
            if !self.field.has_object(posn) {
                let mob = Mob::new(self.next_monster_id, posn);
                self.place_monster(mob);
                proof {
                    spawn = Some(mob);
                }
            }
        }

        // Resolve MOB attacks.
        self.resolve_attacks();
        let ghost opened = self@;
        assert(opened == old(self)@.turn_opened(spawn));

        // Move MOBs.
        let ids = ids_of(&self.monsters);
        let len = self.field.len();
        let mut i: usize = 0;
        while i < ids.len()
            invariant
                i <= ids@.len(),
                ids@.no_duplicates(),
                ids@.to_set() == opened.monsters.dom(),
                len == opened.field.len(),
                self@.wf(),
                self@.moved_from(opened),
                forall|id: u64|
                    opened.monsters.contains_key(id) && !ids@.take(i as int).contains(id)
                        ==> self@.monsters[id].posn == opened.monsters[id].posn,
            decreases ids@.len() - i,
        {
            let id = ids[i];
            let posn = self.monsters.get(&id).unwrap().get_move();
            self.move_monster(id, posn);
            i += 1;
            proof {
                assert(ids@.take(i as int)[i - 1] == id);
                assert(self@.monsters.dom() =~= opened.monsters.dom());
            }
        }
    }
}

impl Game {
    /// Whether the monster `id`, which is in the game, is recorded
    /// consistently.
    fn monster_placed(&self, id: u64) -> (ok: bool)
        requires
            self@.monsters.contains_key(id),
        ensures
            ok == self@.monster_placed(id),
    {
        match self.monsters.get(&id) {
            Some(mob) => {
                mob.id == id && id < self.next_monster_id && mob.posn < self.field.len()
                    && match self.field.loc(mob.posn).object {
                    Some(Object::Monster(at)) => at == id,
                    _ => false,
                }
            },
            None => false,
        }
    }

    /// Whether the player `id`, which is in the game, is recorded
    /// consistently.
    fn player_placed(&self, id: u64) -> (ok: bool)
        requires
            self@.players.contains_key(id),
        ensures
            ok == self@.player_placed(id),
    {
        match self.players.get(&id) {
            Some(player) => {
                player.id == id && id < self.next_player_id && 1 <= player.posn
                    && player.posn < self.field.len() && Player::MARGIN < self.field.len()
                    - player.posn && match self.field.loc(player.posn).object {
                    Some(Object::Player(at)) => at == id,
                    _ => false,
                } && player.left <= player.posn && player.left <= player.width as usize
                    && player.width as usize >= Player::MARGIN
            },
            None => false,
        }
    }

    /// Whether a monster that stands at `posn` is the one recorded there,
    /// and the floor at `posn` is no monster.
    fn monster_known(&self, posn: usize) -> (ok: bool)
        requires
            posn < self@.field.len(),
        ensures
            ok == self@.monster_known(self@.field[posn as int], posn as int),
    {
        let loc = self.field.loc(posn);
        match loc.floor {
            Some(Object::Monster(_)) => {
                return false;
            },
            _ => {},
        }
        match loc.object {
            Some(Object::Monster(id)) => match self.monsters.get(&id) {
                Some(mob) => mob.posn == posn,
                None => false,
            },
            _ => true,
        }
    }

    /// Checks the consistency of the game state. Every operation of the game
    /// keeps a consistent state consistent; a state that was changed by
    /// hand can be checked here.
    pub fn consistent(&self) -> (ok: bool)
        ensures
            ok == self@.wf(),
    {
        let len = self.field.len();
        if self.health > MAX_HEALTH || len == 0 {
            return false;
        }
        match self.field.loc(0).object {
            Some(Object::Rock) => {},
            _ => {
                return false;
            },
        }
        let monsters = ids_of(&self.monsters);
        let mut i: usize = 0;
        while i < monsters.len()
            invariant
                i <= monsters@.len(),
                monsters@.to_set() == self@.monsters.dom(),
                forall|j: int| 0 <= j < i ==> self@.monster_placed(#[trigger] monsters@[j]),
            decreases monsters@.len() - i,
        {
            if !self.monster_placed(monsters[i]) {
                return false;
            }
            i += 1;
        }
        let players = ids_of(&self.players);
        let mut i: usize = 0;
        while i < players.len()
            invariant
                i <= players@.len(),
                players@.to_set() == self@.players.dom(),
                forall|j: int| 0 <= j < i ==> self@.player_placed(#[trigger] players@[j]),
            decreases players@.len() - i,
        {
            if !self.player_placed(players[i]) {
                return false;
            }
            i += 1;
        }
        let mut posn: usize = 0;
        while posn < len
            invariant
                posn <= len,
                len == self@.field.len(),
                forall|at: int|
                    0 <= at < posn ==> self@.monster_known(#[trigger] self@.field[at], at),
            decreases len - posn,
        {
            if !self.monster_known(posn) {
                return false;
            }
            posn += 1;
        }
        proof {
        }
        true
    }
}

/// A turn passes the time and can only hurt: the clock advances by one,
/// health does not grow, by no more than two points for each player does it
/// shrink, the players stay as they are, and no monster leaves the game.
pub proof fn turn_only_hurts(before: GameView, after: GameView)
    requires
        before.wf(),
        before.turns < u64::MAX,
        before.next_monster_id < u64::MAX,
        after.turned_from(before),
    ensures
        after.turns == before.turns + 1,
        after.players == before.players,
        after.health <= before.health,
        before.health - after.health <= 2 * before.players.len(),
        before.monsters.dom().subset_of(after.monsters.dom()),
{
    let spawn = choose|spawn: Option<Mob>|
        before.may_spawn(spawn) && after.moved_from(#[trigger] before.turn_opened(spawn));
    let ticked = GameView { turns: (before.turns + 1) as u64, ..before };
    let entered = match spawn {
        Some(mob) => ticked.spawned(mob),
        None => ticked,
    };
    lemma_attacks_bounded(entered);
}

/// There are no more attacks than two for each player.
proof fn lemma_attacks_bounded(g: GameView)
    requires
        g.players.dom().finite(),
    ensures
        g.attacks().finite(),
        g.attacks().len() <= 2 * g.players.len(),
{
    let ids = g.players.dom();
    let left = ids.map(|id: u64| (id, false));
    let right = ids.map(|id: u64| (id, true));
    vstd::set_lib::lemma_map_size_bound(ids, left, |id: u64| (id, false));
    vstd::set_lib::lemma_map_size_bound(ids, right, |id: u64| (id, true));
    vstd::set_lib::lemma_len_union(left, right);
    assert forall|a: (u64, bool)| g.attacks().contains(a) implies left.union(right).contains(a) by {
        if a.1 {
            assert(right.contains((a.0, true)));
        } else {
            assert(left.contains((a.0, false)));
        }
    }
    vstd::set_lib::lemma_len_subset(g.attacks(), left.union(right));
}

/// The keys of a map, each once, in the order in which the map hands them
/// out.
pub(crate) fn ids_of<V>(map: &HashMap<u64, V>) -> (ids: Vec<u64>)
    ensures
        ids@.no_duplicates(),
        ids@.to_set() == map@.dom(),
{
    let mut ids: Vec<u64> = Vec::new();
    let ghost keys = spec_keys_iter(map).remaining();
    for id in iter: map.keys()
        invariant
            iter.seq() == keys,
            ids@ == keys.take(iter.index()).unref(),
    {
        ids.push(*id);
    }
    assert(ids@ == keys.unref());
    ids
}

impl Default for Game {
    fn default() -> (game: Game)
        ensures
            game@ == GameView::initial(),
            game@.wf(),
    {
        let game = Game {
            next_player_id: 1,
            players: HashMap::new(),
            field: Field::default(),
            turns: 0,
            monsters: HashMap::new(),
            next_monster_id: 1,
            health: MAX_HEALTH,
        };
        game
    }
}

} // verus!
