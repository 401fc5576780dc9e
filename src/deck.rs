//! The deck: the canonical 32 cards, and shuffling them.
use vstd::prelude::*;

use crate::card::{full_deck, rank_at, suit_at, Card, Rank, Suit};
use rand::seq::SliceRandom;

verus! {

pub struct Deck {
    pub cards: Vec<Card>,
}

/// `b` holds the same cards as `a`, each as often, possibly in another order.
pub open spec fn is_permutation(a: Seq<Card>, b: Seq<Card>) -> bool {
    a.len() == b.len() && a.to_multiset() == b.to_multiset()
}

/// Relies on rand's `SliceRandom::shuffle`, driven by `rand::thread_rng`: it
/// only swaps elements, so the result is a rearrangement of the input.
#[verifier::external_body]
pub(crate) fn shuffle_cards(cards: &mut Vec<Card>)
    ensures
        is_permutation(old(cards)@, final(cards)@),
{
    cards.shuffle(&mut rand::thread_rng());
}

impl Deck {
    /// An unshuffled deck, in canonical suit-major order.
    pub fn new() -> (d: Deck)
        ensures
            d.cards@ == full_deck(),
    {
        let ranks: [Rank; 8] = [
            Rank::Seven,
            Rank::Eight,
            Rank::Nine,
            Rank::Queen,
            Rank::King,
            Rank::Ten,
            Rank::Ace,
            Rank::Jack,
        ];
        let suits: [Suit; 4] = [Suit::Club, Suit::Spade, Suit::Heart, Suit::Diamond];
        assert(forall|j: int| 0 <= j < 8 ==> ranks@[j] == rank_at(j));
        assert(forall|i: int| 0 <= i < 4 ==> suits@[i] == suit_at(i));

        let mut deck: Vec<Card> = Vec::new();
        let mut i: usize = 0;
        while i < 4
            invariant
                i <= 4,
                deck@ == full_deck().take(8 * i as int),
                forall|j: int| 0 <= j < 8 ==> ranks@[j] == rank_at(j),
                forall|k: int| 0 <= k < 4 ==> suits@[k] == suit_at(k),
            decreases 4 - i,
        {
            let mut j: usize = 0;
            while j < 8
                invariant
                    i < 4,
                    j <= 8,
                    deck@ == full_deck().take(8 * i + j),
                    forall|j: int| 0 <= j < 8 ==> ranks@[j] == rank_at(j),
                    forall|k: int| 0 <= k < 4 ==> suits@[k] == suit_at(k),
                decreases 8 - j,
            {
                assert((8 * i + j) as int / 8 == i && (8 * i + j) as int % 8 == j);
                deck.push(Card { suit: suits[i], rank: ranks[j] });
                assert(deck@ =~= full_deck().take(8 * i + j + 1));
                j = j + 1;
            }
            i = i + 1;
        }
        assert(deck@ =~= full_deck());
        Deck { cards: deck }
    }

    /// Puts the cards in a random order.
    pub fn shuffle(&mut self)
        ensures
            is_permutation(old(self).cards@, final(self).cards@),
    {
        shuffle_cards(&mut self.cards);
    }
}

} // verus!
