use owo::player::{offset, Player};

#[test]
fn offset_on_and_off_the_board() {
    assert_eq!(offset(5, 1), Some(6));
    assert_eq!(offset(5, -1), Some(4));
    assert_eq!(offset(5, -5), Some(0));
    assert_eq!(offset(5, -6), None);
    assert_eq!(offset(0, -1), None);
    assert_eq!(offset(0, 0), Some(0));
    assert_eq!(offset(0, 3), Some(3));
}

#[test]
fn new_player_defaults() {
    let player = Player::new(7, None);
    assert_eq!(player.id, 7);
    assert_eq!(player.posn, 1);
    assert_eq!(player.left, 1);
    assert_eq!(player.width, 80);
    assert_eq!(player.display_cache, "");
    assert_eq!(player.posn_cache, 0);
    assert_eq!(Player::new(8, Some(132)).width, 132);
    assert_eq!(Player::MARGIN, 3);
}

#[test]
fn adjust_display_follows_the_player_within_margins() {
    let mut player = Player::new(1, Some(20));
    // At position 1 with the view offset 1, a step right takes the offset
    // to the margin, but never beyond the player's new position.
    player.adjust_display(1);
    assert_eq!(player.left, 2);
    player.posn = 2;
    player.adjust_display(1);
    assert_eq!(player.left, 3);
    player.posn = 3;
    player.adjust_display(1);
    assert_eq!(player.left, 4);
    // The offset stops a margin away from the right edge.
    player.posn = 30;
    player.left = 17;
    player.adjust_display(1);
    assert_eq!(player.left, 17);
    player.left = 16;
    player.adjust_display(1);
    assert_eq!(player.left, 17);
    // And a margin away from the left edge.
    player.left = 3;
    player.adjust_display(-1);
    assert_eq!(player.left, 3);
    player.left = 5;
    player.adjust_display(-1);
    assert_eq!(player.left, 4);
    assert_eq!(player.posn, 30);
    assert_eq!(player.width, 20);
}

#[test]
fn adjust_display_offset_off_the_board_is_zero() {
    let mut player = Player::new(1, Some(20));
    player.posn = 4;
    player.left = 0;
    player.adjust_display(-1);
    assert_eq!(player.left, 0);
}

#[test]
fn adjust_display_on_narrow_terminal() {
    let mut player = Player::new(1, Some(3));
    player.posn = 10;
    player.left = 1;
    player.adjust_display(1);
    // min(2, 3 - 3) = 0, raised to the margin 3.
    assert_eq!(player.left, 3);
}
