use skat::deck::Deck;
use skat::game::deal;
use skat::table::{rotate_players, Game, JoinError};

#[test]
fn players_fill_seats_in_order() {
    let mut game = Game::new();
    assert_eq!(game.join(7), Ok(0));
    assert_eq!(game.join(8), Ok(1));
    assert_eq!(game.join(9), Ok(2));
    assert_eq!(game.player_ids, (7, 8, 9));
    assert_eq!(game.join(10), Err(JoinError::GameFull));
    assert_eq!(game.player_ids, (7, 8, 9));
}

#[test]
fn zero_is_not_a_player_id() {
    let mut game = Game::new();
    assert_eq!(game.join(0), Err(JoinError::ReservedId));
    assert_eq!(game.player_ids, (0, 0, 0));
}

#[test]
fn rotation_moves_forehand_to_rearhand() {
    let mut game = Game::new();
    game.player_ids = (1, 2, 3);
    rotate_players(&mut game);
    assert_eq!(game.player_ids, (2, 3, 1));
}

#[test]
fn each_player_sees_only_their_hand() {
    let mut game = Game::new();
    assert_eq!(game.hand_of(1), None);
    game.join(1).unwrap();
    game.join(2).unwrap();
    game.join(3).unwrap();
    let deck = Deck::new().cards;
    game.start_round(deal(&deck));
    assert_eq!(game.rounds.len(), 1);
    assert_eq!(game.player_ids, (2, 3, 1));
    let round = &game.rounds[0];
    assert_eq!(game.hand_of(2), Some(round.forehand));
    assert_eq!(game.hand_of(3), Some(round.middlehand));
    assert_eq!(game.hand_of(1), Some(round.rearhand));
    assert_eq!(game.hand_of(4), None);
}
