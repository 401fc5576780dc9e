//! Rules engine for the bidding phase of a three-player Skat round.
//!
//! The library holds the card model, the canonical deck, the round data
//! model and the bidding state machine, each with a contract proved by Verus.
use vstd::prelude::*;

pub mod card;
pub mod deck;
pub mod game;
pub mod laws;
pub mod table;

use crate::card::{full_deck, Card};
use crate::deck::{is_permutation, shuffle_cards, Deck};

verus! {

/// A full deck in random order.
pub fn new_deck() -> (d: Vec<Card>)
    ensures
        is_permutation(full_deck(), d@),
{
    let deck = Deck::new().cards;
    shuffle_deck(deck)
}

fn shuffle_deck(deck: Vec<Card>) -> (r: Vec<Card>)
    ensures
        is_permutation(deck@, r@),
{
    let mut deck = deck;
    shuffle_cards(&mut deck);
    deck
}

} // verus!
