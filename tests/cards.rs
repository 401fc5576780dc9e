use skat::card::{Card, Rank, Suit};
use skat::deck::Deck;
use skat::game::{deal, new_round, Mode, State};
use skat::new_deck;

const SUITS: [Suit; 4] = [Suit::Club, Suit::Spade, Suit::Heart, Suit::Diamond];
const RANKS: [Rank; 8] = [
    Rank::Seven,
    Rank::Eight,
    Rank::Nine,
    Rank::Queen,
    Rank::King,
    Rank::Ten,
    Rank::Ace,
    Rank::Jack,
];

fn every_card_once(cards: &[Card]) -> bool {
    cards.len() == 32
        && SUITS.iter().all(|s| {
            RANKS.iter().all(|r| {
                cards.iter().filter(|c| c.suit == *s && c.rank == *r).count() == 1
            })
        })
}

#[test]
fn unshuffled_deck_is_suit_major() {
    let deck = Deck::new();
    assert_eq!(deck.cards.len(), 32);
    for (k, card) in deck.cards.iter().enumerate() {
        assert_eq!(*card, Card { suit: SUITS[k / 8], rank: RANKS[k % 8] });
    }
    assert_eq!(deck.cards[8], Card { suit: Suit::Spade, rank: Rank::Seven });
    assert_eq!(deck.cards[31], Card { suit: Suit::Diamond, rank: Rank::Jack });
}

#[test]
fn shuffle_keeps_the_cards() {
    let mut deck = Deck::new();
    deck.shuffle();
    assert!(every_card_once(&deck.cards));
}

#[test]
fn shuffle_reorders_the_cards() {
    let canonical = Deck::new().cards;
    let mut moved = false;
    for _ in 0..5 {
        let mut deck = Deck::new();
        deck.shuffle();
        if deck.cards != canonical {
            moved = true;
        }
    }
    assert!(moved);
}

#[test]
fn new_deck_has_every_card_once() {
    let deck = new_deck();
    assert!(every_card_once(&deck));
}

#[test]
fn deal_gives_ten_ten_ten_and_two() {
    let deck = Deck::new().cards;
    let round = deal(&deck);
    for i in 0..10 {
        assert_eq!(round.forehand[i], Some(deck[i]));
        assert_eq!(round.middlehand[i], Some(deck[10 + i]));
        assert_eq!(round.rearhand[i], Some(deck[20 + i]));
    }
    assert_eq!(round.skat, [Some(deck[30]), Some(deck[31])]);
    assert_eq!(round.trick, [None; 3]);
    assert_eq!(round.state, State { bids: [0, 0, 0], modifier: 1, turn: 1, mode: Mode::Bidding });
}

#[test]
fn new_round_deals_every_card_once() {
    let round = new_round();
    let mut cards: Vec<Card> = Vec::new();
    for slot in round
        .forehand
        .iter()
        .chain(round.middlehand.iter())
        .chain(round.rearhand.iter())
        .chain(round.skat.iter())
    {
        cards.push(slot.expect("every slot is dealt"));
    }
    assert!(every_card_once(&cards));
    assert_eq!(round.trick, [None; 3]);
}
