use owo::field::Object;
use owo::game::Game;
use owo::mob::Mob;
use owo::play::{Frame, Notice, Order, Reaction};
use owo::DOOR_POSN;

fn line_of(game: &Game, left: usize, right: usize) -> String {
    game.field.render(left, right).into_iter().collect()
}

#[test]
fn parse_orders() {
    assert_eq!(Order::parse("h"), Some(Order::Left));
    assert_eq!(Order::parse("l"), Some(Order::Right));
    assert_eq!(Order::parse("."), Some(Order::Rest));
    assert_eq!(Order::parse("q"), Some(Order::Quit));
}

#[test]
fn parse_trims_whitespace() {
    assert_eq!(Order::parse(" h\r\n"), Some(Order::Left));
    assert_eq!(Order::parse("\tq  "), Some(Order::Quit));
    assert_eq!(Order::parse("\u{2003}l\u{a0}"), Some(Order::Right));
}

#[test]
fn parse_rejects_everything_else() {
    assert_eq!(Order::parse(""), None);
    assert_eq!(Order::parse("   "), None);
    assert_eq!(Order::parse("hh"), None);
    assert_eq!(Order::parse("h l"), None);
    assert_eq!(Order::parse("H"), None);
    assert_eq!(Order::parse("x"), None);
    assert_eq!(Order::parse("é"), None);
}

#[test]
fn from_word_does_not_trim() {
    assert_eq!(Order::from_word("h"), Some(Order::Left));
    assert_eq!(Order::from_word(" h"), None);
    assert_eq!(Order::from_word(""), None);
}

#[test]
fn order_steps() {
    assert_eq!(Order::Left.step(), -1);
    assert_eq!(Order::Right.step(), 1);
    assert_eq!(Order::Rest.step(), 0);
    assert_eq!(Order::Quit.step(), 0);
}

#[test]
fn notice_texts() {
    assert_eq!(Notice::NewGame.text(), "\rno more players, new game    \r");
    assert_eq!(Notice::Quit.text(), "\ryou quit, how sad    \r");
    assert_eq!(Notice::BoardWipe.text(), "\rboard wipe, game over    \r");
    assert_eq!(Notice::AllEscaped.text(), "\ry'all escaped, win!    \r");
    assert_eq!(Notice::Escaped.text(), "\ryou escaped, one down    \r");
}

#[test]
fn enter_places_players_from_the_left() {
    let mut game = Game::default();
    assert_eq!(game.enter(Some(40)), 1);
    assert_eq!(game.next_player_id, 2);
    let player = &game.players[&1];
    assert_eq!((player.id, player.posn, player.left, player.width), (1, 1, 1, 40));
    assert_eq!(player.display_cache, "");
    assert_eq!(player.posn_cache, 0);
    assert_eq!(game.field.loc(1).object, Some(Object::Player(1)));
    assert_eq!(game.enter(None), 2);
    assert_eq!(game.players[&2].posn, 2);
    assert_eq!(game.players[&2].width, 80);
    game.place_monster(Mob::with_roll(1, 3, 0));
    assert_eq!(game.enter(None), 3);
    assert_eq!(game.players[&3].posn, 4);
    assert_eq!(game.field.len(), DOOR_POSN + 1);
    assert_eq!(line_of(&game, 0, 6), "#@@M@.");
}

#[test]
fn enter_establishes_the_field_beyond_the_player() {
    let mut game = Game::default();
    for posn in 1..=DOOR_POSN {
        game.field.set_object(posn, Some(Object::Rock));
    }
    let id = game.enter(None);
    assert_eq!(game.players[&id].posn, DOOR_POSN + 1);
    assert_eq!(game.field.len(), DOOR_POSN + 5);
    assert_eq!(game.field.loc(DOOR_POSN + 1).object, Some(Object::Player(id)));
    assert_eq!(game.field.loc(DOOR_POSN + 4).object, None);
}

#[test]
fn advance_moves_onto_clear_position() {
    let mut game = Game::default();
    let id = game.enter(Some(20));
    game.advance_with(id, 1, 0);
    let player = &game.players[&id];
    assert_eq!((player.posn, player.left), (2, 2));
    assert_eq!(game.field.loc(1).object, None);
    assert_eq!(game.field.loc(2).object, Some(Object::Player(id)));
    game.advance(id, 1);
    game.advance(id, 1);
    let player = &game.players[&id];
    assert_eq!((player.posn, player.left), (4, 4));
    game.advance(id, -1);
    let player = &game.players[&id];
    assert_eq!((player.posn, player.left), (3, 3));
    assert_eq!(line_of(&game, 0, 5), "#..@.");
}

#[test]
fn advance_is_blocked_by_rock_player_and_door() {
    let mut game = Game::default();
    let a = game.enter(None);
    let b = game.enter(None);
    game.advance(a, -1);
    assert_eq!(game.players[&a].posn, 1);
    game.advance(a, 1);
    assert_eq!(game.players[&a].posn, 1);
    game.advance(b, -1);
    assert_eq!(game.players[&b].posn, 2);
    // The door lies on the floor and blocks the step too.
    game.field.set_object(2, None);
    game.field.set_object(DOOR_POSN - 1, Some(Object::Player(b)));
    game.players.get_mut(&b).unwrap().posn = DOOR_POSN - 1;
    game.field.establish(DOOR_POSN + 3);
    game.advance(b, 1);
    assert_eq!(game.players[&b].posn, DOOR_POSN - 1);
}

#[test]
fn advance_into_monster_is_a_fight() {
    let mut game = Game::default();
    let id = game.enter(None);
    game.place_monster(Mob::with_roll(1, 2, 0));
    assert_eq!(game.opponent(id, 1), Some(1));
    assert_eq!(game.opponent(id, -1), None);
    game.advance_with(id, 1, 2);
    assert_eq!(game.monsters[&1].health, 1);
    assert_eq!(game.players[&id].posn, 1);
    game.advance_with(id, 1, 0);
    assert_eq!(game.monsters[&1].health, 1);
    assert_eq!(game.players[&id].posn, 1);
    game.advance_with(id, 1, 1);
    assert!(game.monsters.is_empty());
    assert_eq!(game.players[&id].posn, 2);
    assert_eq!(game.field.loc(2).object, Some(Object::Player(id)));
    assert_eq!(game.field.loc(1).object, None);
    assert_eq!(game.opponent(id, 1), None);
}

#[test]
fn advance_slays_within_a_few_random_hits() {
    let mut game = Game::default();
    let id = game.enter(None);
    game.place_monster(Mob::with_roll(1, 2, 2));
    let mut blows = 0;
    while game.players[&id].posn == 1 {
        let health = game.monsters[&1].health;
        game.advance(id, 1);
        if let Some(mob) = game.monsters.get(&1) {
            assert!(mob.health <= health && health - mob.health <= 2);
            assert!(mob.health > 0);
        }
        blows += 1;
        assert!(blows < 10_000);
    }
    assert!(blows >= 3);
    assert!(game.monsters.is_empty());
}

#[test]
fn slaying_a_monster_on_the_door_wins() {
    let mut game = Game::default();
    let id = game.enter(None);
    game.field.set_object(1, None);
    game.field.establish(DOOR_POSN + 3);
    game.field.set_object(DOOR_POSN - 1, Some(Object::Player(id)));
    game.players.get_mut(&id).unwrap().posn = DOOR_POSN - 1;
    game.place_monster(Mob::with_roll(1, DOOR_POSN, 0));
    assert_eq!(game.outcome(id), None);
    game.advance_with(id, 1, 3);
    assert_eq!(game.players[&id].posn, DOOR_POSN);
    assert_eq!(game.field.len(), DOOR_POSN + 4);
    assert_eq!(game.outcome(id), Some(Notice::AllEscaped));
    assert!(game.players.is_empty());
    assert_eq!(game.next_player_id, 1);
    assert_eq!(game.field.len(), DOOR_POSN + 1);
}

#[test]
fn leave_of_one_among_several() {
    let mut game = Game::default();
    let a = game.enter(None);
    let b = game.enter(None);
    game.turns = 7;
    assert_eq!(game.leave(a), Notice::Quit);
    assert_eq!(game.players.len(), 1);
    assert!(game.players.contains_key(&b));
    assert_eq!(game.field.loc(1).object, None);
    assert_eq!(game.field.loc(2).object, Some(Object::Player(b)));
    assert_eq!(game.turns, 7);
    assert_eq!(game.next_player_id, 3);
}

#[test]
fn leave_of_the_last_player_starts_a_new_game() {
    let mut game = Game::default();
    let a = game.enter(None);
    game.place_monster(Mob::with_roll(1, 9, 0));
    game.turns = 7;
    game.health = 3;
    assert_eq!(game.leave(a), Notice::NewGame);
    assert!(game.players.is_empty());
    assert!(game.monsters.is_empty());
    assert_eq!((game.turns, game.health), (0, 100));
    assert_eq!((game.next_player_id, game.next_monster_id), (1, 1));
    assert_eq!(game.field.loc(9).object, None);
}

#[test]
fn outcome_while_the_game_goes_on() {
    let mut game = Game::default();
    let a = game.enter(None);
    assert_eq!(game.outcome(a), None);
    assert_eq!(game.players.len(), 1);
    game.health = 1;
    assert_eq!(game.outcome(a), None);
}

#[test]
fn outcome_board_wipe() {
    let mut game = Game::default();
    let a = game.enter(None);
    let b = game.enter(None);
    game.health = 0;
    assert_eq!(game.outcome(a), Some(Notice::BoardWipe));
    assert!(!game.players.contains_key(&a));
    assert_eq!(game.health, 0);
    // The avatar stays on the field.
    assert_eq!(game.field.loc(1).object, Some(Object::Player(a)));
    assert_eq!(game.outcome(b), Some(Notice::BoardWipe));
    assert!(game.players.is_empty());
    assert_eq!(game.health, 100);
    assert_eq!(game.field.loc(1).object, None);
}

#[test]
fn outcome_escape_one_by_one() {
    let mut game = Game::default();
    let a = game.enter(None);
    let b = game.enter(None);
    game.field.establish(DOOR_POSN + 10);
    for (id, posn) in [(a, DOOR_POSN), (b, DOOR_POSN + 2)] {
        let old = game.players[&id].posn;
        game.field.set_object(old, None);
        game.field.set_object(posn, Some(Object::Player(id)));
        game.players.get_mut(&id).unwrap().posn = posn;
    }
    assert_eq!(game.outcome(a), Some(Notice::Escaped));
    assert_eq!(game.players.len(), 1);
    assert_eq!(game.outcome(b), Some(Notice::AllEscaped));
    assert!(game.players.is_empty());
    assert_eq!(game.field.len(), DOOR_POSN + 1);
}

#[test]
fn draw_first_time_and_when_stale() {
    let mut game = Game::default();
    let id = game.enter(Some(10));
    let frame = game.draw(id);
    assert_eq!(frame, Some(Frame { line: "#@........".to_string(), cursor: 1 }));
    assert_eq!(game.players[&id].display_cache, "#@........");
    assert_eq!(game.players[&id].posn_cache, 1);
    assert_eq!(game.draw(id), None);
    game.place_monster(Mob::with_roll(1, 5, 0));
    assert_eq!(game.draw(id), Some(Frame { line: "#@...M....".to_string(), cursor: 1 }));
    assert_eq!(game.draw(id), None);
    game.advance_with(id, 1, 0);
    assert_eq!(game.draw(id), Some(Frame { line: "#.@..M....".to_string(), cursor: 2 }));
}

#[test]
fn draw_scrolls_with_the_player() {
    let mut game = Game::default();
    let id = game.enter(Some(8));
    for _ in 0..9 {
        game.advance_with(id, 1, 0);
    }
    let player = &game.players[&id];
    assert_eq!((player.posn, player.left), (10, 5));
    assert_eq!(game.draw(id), Some(Frame { line: ".....@..".to_string(), cursor: 5 }));
    game.advance_with(id, -1, 0);
    game.advance_with(id, -1, 0);
    game.advance_with(id, -1, 0);
    let player = &game.players[&id];
    assert_eq!((player.posn, player.left), (7, 3));
    assert_eq!(game.draw(id), Some(Frame { line: "...@....".to_string(), cursor: 3 }));
}

#[test]
fn draw_is_blank_beyond_the_field() {
    let mut game = Game::default();
    let id = game.enter(Some(12));
    game.field.set_object(1, None);
    game.field.set_object(DOOR_POSN - 4, Some(Object::Player(id)));
    let player = game.players.get_mut(&id).unwrap();
    player.posn = DOOR_POSN - 4;
    player.left = 3;
    let frame = game.draw(id).unwrap();
    assert_eq!(frame.line, "...@...+    ");
    assert_eq!(frame.cursor, 3);
}

#[test]
fn draw_shows_other_players() {
    let mut game = Game::default();
    let a = game.enter(Some(6));
    let b = game.enter(Some(6));
    assert_eq!(game.draw(a), Some(Frame { line: "#@@...".to_string(), cursor: 1 }));
    assert_eq!(game.draw(b), Some(Frame { line: "@@....".to_string(), cursor: 1 }));
}

#[test]
fn play_without_input_shows_the_screen_once() {
    let mut game = Game::default();
    let id = game.enter(Some(5));
    assert_eq!(
        game.play(id, None),
        Reaction::Show(Some(Frame { line: "#@...".to_string(), cursor: 1 }))
    );
    assert_eq!(game.play(id, None), Reaction::Show(None));
    assert_eq!(game.turns, 0);
}

#[test]
fn play_ignores_unknown_lines() {
    let mut game = Game::default();
    let id = game.enter(Some(5));
    assert_eq!(game.play(id, Some("look")), Reaction::Ignore);
    assert_eq!(game.play(id, Some("")), Reaction::Ignore);
    assert_eq!(game.turns, 0);
    assert_eq!(game.players[&id].display_cache, "");
}

#[test]
fn play_step_takes_a_turn_and_redraws() {
    let mut game = Game::default();
    let id = game.enter(Some(5));
    assert_eq!(
        game.play(id, Some("l\r\n")),
        Reaction::Show(Some(Frame { line: "#.@..".to_string(), cursor: 2 }))
    );
    assert_eq!(game.turns, 1);
    assert_eq!(game.players[&id].posn, 2);
    assert_eq!(
        game.play(id, Some("h")),
        Reaction::Show(Some(Frame { line: "#@...".to_string(), cursor: 1 }))
    );
    assert_eq!(game.turns, 2);
    // Blocked by the rock: the turn passes, the screen stays.
    assert_eq!(game.play(id, Some("h")), Reaction::Show(None));
    assert_eq!(game.turns, 3);
}

#[test]
fn play_rest_heals_and_takes_a_turn() {
    let mut game = Game::default();
    let id = game.enter(Some(5));
    game.health = 40;
    game.play(id, None);
    assert_eq!(game.play(id, Some(".")), Reaction::Show(None));
    assert_eq!(game.turns, 1);
    assert!(game.health == 40 || game.health == 41);
}

#[test]
fn play_quit() {
    let mut game = Game::default();
    let a = game.enter(None);
    let b = game.enter(None);
    assert_eq!(game.play(a, Some("q")), Reaction::Bye(Notice::Quit));
    assert_eq!(game.turns, 0);
    assert_eq!(game.play(b, Some(" q ")), Reaction::Bye(Notice::NewGame));
    assert!(game.players.is_empty());
}

#[test]
fn play_ends_on_board_wipe() {
    let mut game = Game::default();
    let id = game.enter(None);
    game.place_monster(Mob::with_roll(1, 3, 0));
    game.move_monster(1, 2);
    game.health = 1;
    // The monster next to the player attacks in the turn after the rest;
    // if the rest has healed, it takes one more turn.
    let mut reaction = game.play(id, Some("q x"));
    assert_eq!(reaction, Reaction::Ignore);
    for _ in 0..1000 {
        game.health = game.health.min(1);
        reaction = game.play(id, Some("h"));
        if reaction == Reaction::Bye(Notice::BoardWipe) {
            break;
        }
    }
    assert_eq!(reaction, Reaction::Bye(Notice::BoardWipe));
    assert!(game.players.is_empty());
    assert_eq!(game.health, 100);
}

#[test]
fn look_reports_ending_before_drawing() {
    let mut game = Game::default();
    let a = game.enter(Some(5));
    let b = game.enter(Some(5));
    game.health = 0;
    assert_eq!(game.look(a), Reaction::Bye(Notice::BoardWipe));
    game.health = 5;
    assert_eq!(
        game.look(b),
        Reaction::Show(Some(Frame { line: "@@...".to_string(), cursor: 1 }))
    );
}
