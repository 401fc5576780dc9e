//! Cards: a suit and a rank, and the canonical 32-card sequence.
use vstd::prelude::*;

verus! {

#[derive(Clone, Copy, Debug, PartialEq, Eq, Structural)]
pub enum Suit {
    Club,
    Spade,
    Heart,
    Diamond,
}

#[derive(Clone, Copy, Debug, PartialEq, Eq, Structural)]
pub enum Rank {
    Seven,
    Eight,
    Nine,
    Queen,
    King,
    Ten,
    Ace,
    Jack,
}

#[derive(Clone, Copy, Debug, PartialEq, Eq, Structural)]
pub struct Card {
    pub suit: Suit,
    pub rank: Rank,
}

/// Position of a suit in the canonical suit order.
pub open spec fn suit_index(s: Suit) -> int {
    match s {
        Suit::Club => 0,
        Suit::Spade => 1,
        Suit::Heart => 2,
        Suit::Diamond => 3,
    }
}

/// Position of a rank in the canonical rank order.
pub open spec fn rank_index(r: Rank) -> int {
    match r {
        Rank::Seven => 0,
        Rank::Eight => 1,
        Rank::Nine => 2,
        Rank::Queen => 3,
        Rank::King => 4,
        Rank::Ten => 5,
        Rank::Ace => 6,
        Rank::Jack => 7,
    }
}

/// The suit at position `i` of the canonical suit order.
pub open spec fn suit_at(i: int) -> Suit {
    if i == 0 {
        Suit::Club
    } else if i == 1 {
        Suit::Spade
    } else if i == 2 {
        Suit::Heart
    } else {
        Suit::Diamond
    }
}

/// The rank at position `j` of the canonical rank order.
pub open spec fn rank_at(j: int) -> Rank {
    if j == 0 {
        Rank::Seven
    } else if j == 1 {
        Rank::Eight
    } else if j == 2 {
        Rank::Nine
    } else if j == 3 {
        Rank::Queen
    } else if j == 4 {
        Rank::King
    } else if j == 5 {
        Rank::Ten
    } else if j == 6 {
        Rank::Ace
    } else {
        Rank::Jack
    }
}

/// Position of a card in the canonical deck: suit-major, then rank.
pub open spec fn card_index(c: Card) -> int {
    8 * suit_index(c.suit) + rank_index(c.rank)
}

/// The canonical deck: the four suits in order, each with its eight ranks in order.
pub open spec fn full_deck() -> Seq<Card> {
    Seq::new(32, |k: int| Card { suit: suit_at(k / 8), rank: rank_at(k % 8) })
}

/// Every position of the canonical deck holds the card whose index it is.
pub proof fn lemma_full_deck_index(k: int)
    requires
        0 <= k < 32,
    ensures
        card_index(full_deck()[k]) == k,
{
    assert(k == 8 * (k / 8) + k % 8);
}

/// Every card sits in the canonical deck at its own index.
pub proof fn lemma_card_in_full_deck(c: Card)
    ensures
        0 <= card_index(c) < 32,
        full_deck()[card_index(c)] == c,
{
    let k = card_index(c);
    assert(k / 8 == suit_index(c.suit));
    assert(k % 8 == rank_index(c.rank));
}

/// The canonical deck holds every card exactly once.
pub proof fn lemma_full_deck_complete()
    ensures
        full_deck().len() == 32,
        full_deck().no_duplicates(),
        forall|c: Card| full_deck().contains(c),
{
    assert forall|i: int, j: int|
        0 <= i < full_deck().len() && 0 <= j < full_deck().len() && i != j implies full_deck()[i]
        != full_deck()[j] by {
        lemma_full_deck_index(i);
        lemma_full_deck_index(j);
    }
    assert forall|c: Card| full_deck().contains(c) by {
        lemma_card_in_full_deck(c);
    }
}

} // verus!
