use owo::field::{Loc, Object};
use owo::game::Game;
use owo::mob::Mob;
use owo::{DOOR_POSN, MAX_HEALTH};

/// Checks that records and field agree, as every operation must leave them.
fn assert_consistent(game: &Game) {
    assert!(game.consistent());
    assert!(game.health <= MAX_HEALTH);
    assert_eq!(game.field.loc(0).object, Some(Object::Rock));
    for (id, mob) in game.monsters.iter() {
        assert_eq!(mob.id, *id);
        assert!(*id < game.next_monster_id);
        assert!(mob.posn < game.field.len());
        assert_eq!(game.field.loc(mob.posn).object, Some(Object::Monster(*id)));
    }
    for (id, player) in game.players.iter() {
        assert_eq!(player.id, *id);
        assert!(*id < game.next_player_id);
        assert!(player.posn >= 1);
        assert!(player.posn + 3 < game.field.len());
        assert_eq!(game.field.loc(player.posn).object, Some(Object::Player(*id)));
        assert!(player.left <= player.posn);
        assert!(player.left <= player.width as usize);
    }
    for posn in 0..game.field.len() {
        let loc = game.field.loc(posn);
        assert!(!matches!(loc.floor, Some(Object::Monster(_))));
        if let Some(Object::Monster(id)) = loc.object {
            assert_eq!(game.monsters[&id].posn, posn);
        }
    }
}

#[test]
fn default_game() {
    let game = Game::default();
    assert_eq!(game.next_player_id, 1);
    assert_eq!(game.next_monster_id, 1);
    assert!(game.players.is_empty());
    assert!(game.monsters.is_empty());
    assert_eq!(game.turns, 0);
    assert_eq!(game.health, 100);
    assert_eq!(game.field.len(), DOOR_POSN + 1);
    assert_consistent(&game);
}

#[test]
fn heal_is_capped_at_max_health() {
    let mut game = Game::default();
    game.health = 50;
    game.heal(1);
    assert_eq!(game.health, 51);
    game.heal(0);
    assert_eq!(game.health, 51);
    game.heal(48);
    assert_eq!(game.health, 99);
    game.heal(1);
    assert_eq!(game.health, 100);
    game.heal(1);
    assert_eq!(game.health, 100);
    game.health = 99;
    game.heal(5);
    assert_eq!(game.health, 100);
}

#[test]
fn rest_heals_by_one_at_most() {
    let mut lows = 0;
    let mut highs = 0;
    for _ in 0..200 {
        let mut game = Game::default();
        game.health = 10;
        game.rest();
        match game.health {
            10 => lows += 1,
            11 => highs += 1,
            other => panic!("health {} after a rest", other),
        }
        assert_eq!(game.turns, 0);
    }
    assert!(lows > 0 && highs > 0);
    let mut game = Game::default();
    game.rest();
    assert_eq!(game.health, 100);
}

#[test]
fn spawn_due_counts_field_and_turns() {
    let mut game = Game::default();
    assert!(!game.spawn_due());
    game.turns = 4;
    assert!(!game.spawn_due());
    game.turns = 5;
    assert!(game.spawn_due());
    game.place_monster(Mob::with_roll(1, 100, 0));
    assert!(!game.spawn_due());
    game.turns = 10;
    assert!(game.spawn_due());
    // 501 positions allow 25 monsters.
    game.turns = 1000;
    for i in 2..=25 {
        assert!(game.spawn_due());
        game.place_monster(Mob::with_roll(i, 100 + i as usize, 0));
    }
    assert_eq!(game.monsters.len(), 25);
    assert!(!game.spawn_due());
    assert_consistent(&game);
}

#[test]
fn place_monster_records_and_shows_it() {
    let mut game = Game::default();
    let mob = Mob::with_roll(1, DOOR_POSN, 2);
    game.place_monster(mob);
    assert_eq!(game.next_monster_id, 2);
    assert_eq!(game.monsters.len(), 1);
    assert_eq!(game.monsters[&1], Mob { id: 1, posn: DOOR_POSN, health: 5 });
    assert_eq!(
        *game.field.loc(DOOR_POSN),
        Loc { object: Some(Object::Monster(1)), floor: Some(Object::Door) }
    );
    assert_consistent(&game);
}

#[test]
fn move_monster_to_free_position() {
    let mut game = Game::default();
    game.place_monster(Mob::with_roll(1, 10, 0));
    game.move_monster(1, 11);
    assert_eq!(game.monsters[&1], Mob { id: 1, posn: 11, health: 3 });
    assert_eq!(game.field.loc(10).object, None);
    assert_eq!(game.field.loc(11).object, Some(Object::Monster(1)));
    game.move_monster(1, 10);
    assert_eq!(game.monsters[&1].posn, 10);
    assert_consistent(&game);
}

#[test]
fn move_monster_blocked() {
    let mut game = Game::default();
    game.place_monster(Mob::with_roll(1, 1, 0));
    game.place_monster(Mob::with_roll(2, 2, 0));
    game.place_monster(Mob::with_roll(3, DOOR_POSN - 1, 0));
    // By the rock, by another monster, by the door on the floor.
    game.move_monster(1, 0);
    assert_eq!(game.monsters[&1].posn, 1);
    game.move_monster(1, 2);
    assert_eq!(game.monsters[&1].posn, 1);
    game.move_monster(3, DOOR_POSN);
    assert_eq!(game.monsters[&3].posn, DOOR_POSN - 1);
    // Staying put changes nothing.
    game.move_monster(2, 2);
    assert_eq!(game.monsters[&2].posn, 2);
    assert_consistent(&game);
}

#[test]
fn move_monster_beyond_the_field_stays() {
    let mut game = Game::default();
    game.place_monster(Mob::with_roll(1, DOOR_POSN, 0));
    game.move_monster(1, DOOR_POSN + 1);
    assert_eq!(game.monsters[&1].posn, DOOR_POSN);
    assert_eq!(game.field.len(), DOOR_POSN + 1);
    assert_consistent(&game);
}

#[test]
fn attacks_cost_one_health_per_side() {
    let mut game = Game::default();
    let a = game.enter(None);
    let b = game.enter(None);
    assert_eq!((a, b), (1, 2));
    assert_eq!(game.players[&1].posn, 1);
    assert_eq!(game.players[&2].posn, 2);
    game.resolve_attacks();
    assert_eq!(game.health, 100);
    // A monster at 3 attacks the player at 2 only.
    game.place_monster(Mob::with_roll(1, 3, 0));
    game.resolve_attacks();
    assert_eq!(game.health, 99);
    // A third player at 4 is attacked from its left as well.
    let c = game.enter(None);
    assert_eq!(game.players[&c].posn, 4);
    game.place_monster(Mob::with_roll(2, 5, 0));
    game.resolve_attacks();
    assert_eq!(game.health, 96);
    assert_consistent(&game);
}

#[test]
fn attacks_stop_at_zero_health() {
    let mut game = Game::default();
    game.enter(None);
    game.place_monster(Mob::with_roll(1, 2, 0));
    game.health = 1;
    game.resolve_attacks();
    assert_eq!(game.health, 0);
    game.resolve_attacks();
    assert_eq!(game.health, 0);
    let mut game = Game::default();
    game.enter(None);
    game.enter(None);
    game.enter(None);
    game.place_monster(Mob::with_roll(1, 4, 0));
    game.move_monster(1, 4);
    game.leave(2);
    game.place_monster(Mob::with_roll(2, 2, 0));
    // Players at 1 and 3, monsters at 2 and 4: three attacks.
    game.health = 2;
    game.resolve_attacks();
    assert_eq!(game.health, 0);
}

#[test]
fn turn_on_an_empty_game_only_advances_the_clock() {
    let mut game = Game::default();
    for turn in 1..5 {
        game.turn();
        assert_eq!(game.turns, turn);
        assert!(game.monsters.is_empty());
        assert_eq!(game.health, 100);
    }
    assert_consistent(&game);
}

#[test]
fn turns_spawn_and_move_monsters_consistently() {
    let mut game = Game::default();
    game.enter(Some(40));
    for turn in 1..=400u64 {
        let before: Vec<Mob> = game.monsters.values().copied().collect();
        let next_id = game.next_monster_id;
        let health = game.health;
        game.turn();
        assert_eq!(game.turns, turn);
        assert_eq!(game.field.len(), DOOR_POSN + 1);
        assert!(game.health <= health);
        assert!(health - game.health <= 2);
        assert!(game.next_monster_id == next_id || game.next_monster_id == next_id + 1);
        assert_eq!(game.monsters.len() as u64, before.len() as u64 + game.next_monster_id - next_id);
        assert!((game.monsters.len() as u64) <= turn / 5 + 1);
        for old in before {
            let now = game.monsters[&old.id];
            assert_eq!(now.health, old.health);
            assert!(now.posn + 1 >= old.posn && now.posn <= old.posn + 1);
        }
        if game.next_monster_id != next_id {
            let mob = game.monsters[&next_id];
            assert!(3 <= mob.health && mob.health <= 5);
        }
        assert_eq!(game.players.len(), 1);
        assert_eq!(game.players[&1].posn, 1);
        assert_consistent(&game);
    }
    assert!(game.monsters.len() > 1);
}

#[test]
fn consistent_detects_broken_states() {
    let mut game = Game::default();
    game.enter(None);
    game.place_monster(Mob::with_roll(1, 7, 0));
    assert!(game.consistent());

    let mut broken = Game::default();
    broken.health = MAX_HEALTH + 1;
    assert!(!broken.consistent());

    let mut broken = Game::default();
    broken.field.set_object(0, None);
    assert!(!broken.consistent());

    // A monster on the field that is not on record.
    let mut broken = Game::default();
    broken.field.set_object(9, Some(Object::Monster(1)));
    assert!(!broken.consistent());

    // A monster on record that is not on the field.
    let mut broken = Game::default();
    broken.monsters.insert(1, Mob::with_roll(1, 9, 0));
    broken.next_monster_id = 2;
    assert!(!broken.consistent());

    // A monster recorded elsewhere than it stands.
    let mut broken = Game::default();
    broken.place_monster(Mob::with_roll(1, 9, 0));
    broken.field.set_object(10, Some(Object::Monster(1)));
    assert!(!broken.consistent());

    // A monster under an ID that was never given out.
    let mut broken = Game::default();
    broken.place_monster(Mob::with_roll(1, 9, 0));
    broken.next_monster_id = 1;
    assert!(!broken.consistent());

    // A monster as part of the floor.
    let mut broken = Game::default();
    broken.field.insert_floor(Object::Monster(1), 9);
    assert!(!broken.consistent());

    // A player at the near end, or too close to the far end.
    let mut broken = Game::default();
    let id = broken.enter(None);
    broken.field.set_object(1, None);
    broken.field.set_object(DOOR_POSN - 2, Some(Object::Player(id)));
    broken.players.get_mut(&id).unwrap().posn = DOOR_POSN - 2;
    assert!(!broken.consistent());
    broken.field.establish(DOOR_POSN + 1);
    assert!(broken.consistent());

    // A view offset beyond the player, and a terminal too narrow.
    let mut broken = Game::default();
    let id = broken.enter(None);
    broken.players.get_mut(&id).unwrap().left = 2;
    assert!(!broken.consistent());
    broken.players.get_mut(&id).unwrap().left = 0;
    assert!(broken.consistent());
    broken.players.get_mut(&id).unwrap().width = 2;
    assert!(!broken.consistent());
}

#[test]
fn default_game_fits() {
    assert!(Game::default().fits());
    assert!(Game::default().fits_a_step());
}
