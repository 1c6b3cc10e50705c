use owo::field::{Field, Loc, Object};
use owo::DOOR_POSN;

#[test]
fn object_glyphs() {
    assert_eq!(Object::Rock.render(), '#');
    assert_eq!(Object::Monster(7).render(), 'M');
    assert_eq!(Object::Player(1).render(), '@');
    assert_eq!(Object::Door.render(), '+');
}

#[test]
fn loc_top_prefers_object_over_floor() {
    let both = Loc { object: Some(Object::Monster(3)), floor: Some(Object::Door) };
    assert_eq!(both.top(), Some(&Object::Monster(3)));
    assert_eq!(both.render(), 'M');
    let floor = Loc { object: None, floor: Some(Object::Door) };
    assert_eq!(floor.top(), Some(&Object::Door));
    assert_eq!(floor.render(), '+');
    let empty = Loc::default();
    assert_eq!(empty, Loc { object: None, floor: None });
    assert_eq!(empty.top(), None);
    assert_eq!(empty.render(), '.');
}

#[test]
fn default_field_has_rock_and_door() {
    let field = Field::default();
    assert_eq!(field.len(), DOOR_POSN + 1);
    assert_eq!(*field.loc(0), Loc { object: Some(Object::Rock), floor: None });
    assert_eq!(*field.loc(DOOR_POSN), Loc { object: None, floor: Some(Object::Door) });
    assert_eq!(*field.loc(1), Loc { object: None, floor: None });
    assert!(field.has_object(0));
    assert!(!field.has_object(DOOR_POSN));
    assert!(!field.has_object(DOOR_POSN + 1));
}

#[test]
fn establish_grows_and_never_shrinks() {
    let mut field = Field::default();
    field.establish(10);
    assert_eq!(field.len(), 501);
    field.establish(500);
    assert_eq!(field.len(), 501);
    field.establish(501);
    assert_eq!(field.len(), 502);
    field.establish(600);
    assert_eq!(field.len(), 601);
    assert_eq!(*field.loc(600), Loc { object: None, floor: None });
    assert_eq!(*field.loc(0), Loc { object: Some(Object::Rock), floor: None });
}

#[test]
fn insert_sets_object_and_keeps_floor() {
    let mut field = Field::default();
    field.insert(Object::Monster(4), DOOR_POSN);
    assert_eq!(
        *field.loc(DOOR_POSN),
        Loc { object: Some(Object::Monster(4)), floor: Some(Object::Door) }
    );
    assert!(field.has_monster(DOOR_POSN));
    assert!(!field.has_player(DOOR_POSN));
    field.insert(Object::Player(2), 700);
    assert_eq!(field.len(), 701);
    assert!(field.has_player(700));
    assert!(!field.has_monster(700));
    assert!(field.has_object(700));
    assert!(!field.has_object(699));
}

#[test]
fn insert_floor_keeps_object() {
    let mut field = Field::default();
    field.insert_floor(Object::Door, 0);
    assert_eq!(*field.loc(0), Loc { object: Some(Object::Rock), floor: Some(Object::Door) });
    field.insert_floor(Object::Rock, 503);
    assert_eq!(field.len(), 504);
    assert_eq!(*field.loc(503), Loc { object: None, floor: Some(Object::Rock) });
    assert!(!field.has_object(503));
}

#[test]
fn set_object_clears_and_sets() {
    let mut field = Field::default();
    field.set_object(5, Some(Object::Player(1)));
    assert!(field.has_player(5));
    field.set_object(5, None);
    assert!(!field.has_object(5));
    field.set_object(DOOR_POSN, Some(Object::Monster(1)));
    assert_eq!(field.loc(DOOR_POSN).floor, Some(Object::Door));
}

#[test]
fn render_span() {
    let mut field = Field::default();
    field.insert(Object::Player(1), 2);
    field.insert(Object::Monster(1), 4);
    let line: String = field.render(0, 6).into_iter().collect();
    assert_eq!(line, "#.@.M.");
    let line: String = field.render(3, 5).into_iter().collect();
    assert_eq!(line, ".M");
    assert_eq!(field.render(3, 3), Vec::<char>::new());
}

#[test]
fn render_blank_beyond_the_field() {
    let field = Field::default();
    let line: String = field.render(498, 504).into_iter().collect();
    assert_eq!(line, "..+   ");
    let line: String = field.render(501, 503).into_iter().collect();
    assert_eq!(line, "  ");
}
