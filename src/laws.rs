//! General properties of the bidding machine, over sequences of moves.
use vstd::prelude::*;

use crate::game::{after_action, is_available, next_bid, offer, step, Action, StateView};

verus! {

/// The state reached by taking `moves` in order from `s`, each a pair of an
/// action and the seat that submits it; `None` unless every move is taken.
pub open spec fn run(s: StateView, moves: Seq<(Action, u8)>) -> Option<StateView>
    decreases moves.len(),
{
    if moves.len() == 0 {
        Some(s)
    } else {
        match step(s, moves[0].0, moves[0].1) {
            Ok(Some(t)) => run(t, moves.drop_first()),
            _ => None,
        }
    }
}

/// The state after `k` calls of `apply_action` with the same action and seat.
pub open spec fn retried(s: StateView, action: Action, player: u8, k: nat) -> StateView
    decreases k,
{
    if k == 0 {
        s
    } else {
        after_action(retried(s, action, player, (k - 1) as nat), action, player)
    }
}

/// Each step on the bid ladder goes strictly up.
pub proof fn lemma_next_bid_is_higher(b: u8)
    ensures
        next_bid(b) matches Some(n) ==> n > b,
{
}

/// A bid that is taken is the one value the rules offer to that seat, and it
/// is strictly above the seat's previous bid; the seat's entry becomes that
/// value and no other seat's bid changes.
pub proof fn lemma_bid_raises(s: StateView, n: u8, p: u8)
    requires
        s.bids.len() == 3,
        step(s, Action::Bid(n), p) is Ok,
        step(s, Action::Bid(n), p)->Ok_0 is Some,
    ensures
        offer(s, p) == Ok::<Option<u8>, crate::game::RuleError>(Some(n)),
        p < 3,
        n > s.bids[p as int],
        step(s, Action::Bid(n), p)->Ok_0->Some_0.bids == s.bids.update(p as int, n),
{
    lemma_next_bid_is_higher(crate::game::max_bid(s.bids));
}

/// No move that is taken lowers any seat's bid.
pub proof fn lemma_step_keeps_bids(s: StateView, a: Action, p: u8)
    requires
        s.bids.len() == 3,
        step(s, a, p) is Ok,
        step(s, a, p)->Ok_0 is Some,
    ensures
        step(s, a, p)->Ok_0->Some_0.bids.len() == 3,
        forall|k: int|
            0 <= k < 3 ==> #[trigger] step(s, a, p)->Ok_0->Some_0.bids[k] >= s.bids[k],
{
    match a {
        Action::Bid(n) => {
            lemma_bid_raises(s, n, p);
        },
        _ => {},
    }
}

/// Over a run whose moves are all taken, a bid by seat `p` at position `j` is
/// strictly above the bid `p` held at the start.
pub proof fn lemma_later_bid_exceeds(s: StateView, moves: Seq<(Action, u8)>, j: int, b: u8, p: u8)
    requires
        s.bids.len() == 3,
        run(s, moves) is Some,
        0 <= j < moves.len(),
        moves[j] == (Action::Bid(b), p),
    ensures
        p < 3,
        b > s.bids[p as int],
    decreases j,
{
    let t = step(s, moves[0].0, moves[0].1)->Ok_0->Some_0;
    if j == 0 {
        lemma_bid_raises(s, b, p);
    } else {
        lemma_step_keeps_bids(s, moves[0].0, moves[0].1);
        lemma_later_bid_exceeds(t, moves.drop_first(), j - 1, b, p);
    }
}

/// Bid monotonicity: in a sequence of moves that are all taken, the bids of
/// any one seat strictly increase, and each is the value the rules offered.
pub proof fn lemma_bids_strictly_increase(
    s: StateView,
    moves: Seq<(Action, u8)>,
    i: int,
    j: int,
    a: u8,
    b: u8,
    p: u8,
)
    requires
        s.bids.len() == 3,
        run(s, moves) is Some,
        0 <= i < j < moves.len(),
        moves[i] == (Action::Bid(a), p),
        moves[j] == (Action::Bid(b), p),
    ensures
        a < b,
    decreases i,
{
    let t = step(s, moves[0].0, moves[0].1)->Ok_0->Some_0;
    lemma_step_keeps_bids(s, moves[0].0, moves[0].1);
    if i == 0 {
        lemma_bid_raises(s, a, p);
        lemma_later_bid_exceeds(t, moves.drop_first(), j - 1, b, p);
    } else {
        lemma_bids_strictly_increase(t, moves.drop_first(), i - 1, j - 1, a, b, p);
    }
}

/// A rejected action leaves the state as it was, however often it is retried.
pub proof fn lemma_rejection_is_stable(s: StateView, action: Action, player: u8, k: nat)
    requires
        !is_available(s, action, player),
    ensures
        retried(s, action, player, k) == s,
    decreases k,
{
    if k > 0 {
        lemma_rejection_is_stable(s, action, player, (k - 1) as nat);
    }
}

} // verus!
