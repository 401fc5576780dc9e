//! The round data model and the bidding state machine.
use vstd::prelude::*;

use crate::card::{full_deck, lemma_full_deck_complete, Card, Suit};
use crate::deck::is_permutation;
use crate::new_deck;

verus! {

/// The phase of a round, or the contract declared once bidding is over.
#[derive(Clone, Copy, Debug, PartialEq, Eq, Structural)]
pub enum Mode {
    SuitGame(Suit),
    Null,
    Grand,
    Bidding,
    Announcing,
    Finished,
}

/// What a player submits. Only `Bid` and `Pass` are interpreted while bidding.
#[derive(Clone, Debug, PartialEq, Eq)]
pub enum Action {
    Bid(u8),
    Pass,
    TakeSkat,
    ReturnSkat,
    Announce(Mode),
    Cards(Vec<Card>),
}

/// A state that correct play never reaches: the round cannot go on.
#[derive(Clone, Copy, Debug, PartialEq, Eq, Structural)]
pub enum RuleError {
    /// A raise was due from a bid that has no successor on the bid ladder.
    UnknownBid,
    /// The bids match none of the pairings of the auction.
    InconsistentBids,
    /// The seat on turn is not one of the three seats.
    NoSuchSeat,
}

/// The protocol state of a round. Seats: forehand 0, middlehand 1, rearhand 2.
#[derive(Clone, Copy, Debug, PartialEq, Eq)]
pub struct State {
    pub bids: [u8; 3],
    pub modifier: u8,
    pub turn: u8,
    pub mode: Mode,
}

/// One hand of play: the three hands, the skat, the trick and the protocol state.
/// Every slot is kept in place; an empty slot is `None`.
#[derive(Debug)]
pub struct Round {
    pub state: State,
    pub forehand: [Option<Card>; 10],
    pub middlehand: [Option<Card>; 10],
    pub rearhand: [Option<Card>; 10],
    pub skat: [Option<Card>; 2],
    pub trick: [Option<Card>; 3],
}

/// The mathematical model of a `State`.
pub struct StateView {
    pub bids: Seq<u8>,
    pub modifier: u8,
    pub turn: u8,
    pub mode: Mode,
}

impl View for State {
    type V = StateView;

    open spec fn view(&self) -> StateView {
        StateView { bids: self.bids@, modifier: self.modifier, turn: self.turn, mode: self.mode }
    }
}

/// The state every round starts in: no bids, middlehand to speak.
pub open spec fn initial_state() -> StateView {
    StateView { bids: seq![0u8, 0u8, 0u8], modifier: 1, turn: 1, mode: Mode::Bidding }
}

/// The bid ladder: the next legal value above `b`, where `b` is 0 or on the ladder.
pub open spec fn next_bid(b: u8) -> Option<u8> {
    if b == 0 {
        Some(18)
    } else if b == 18 {
        Some(20)
    } else if b == 20 {
        Some(22)
    } else if b == 22 {
        Some(23)
    } else if b == 23 {
        Some(24)
    } else if b == 24 {
        Some(27)
    } else if b == 27 {
        Some(30)
    } else if b == 30 {
        Some(33)
    } else if b == 33 {
        Some(35)
    } else if b == 35 {
        Some(36)
    } else if b == 36 {
        Some(40)
    } else {
        None
    }
}

/// The highest of the three bids.
pub open spec fn max_bid(bids: Seq<u8>) -> u8 {
    let m = if bids[0] >= bids[1] { bids[0] } else { bids[1] };
    if m >= bids[2] { m } else { bids[2] }
}

/// The seat must go above the highest bid rather than match it: it holds that
/// bid itself, or it is rearhand speaking for the first time.
pub open spec fn must_raise(bids: Seq<u8>, seat: int) -> bool {
    bids[seat] == max_bid(bids) || (seat == 2 && bids[2] == 0)
}

/// The one bid value `player` may offer now: `Ok(None)` when it is not that
/// player's turn or the round is not in bidding.
pub open spec fn offer(s: StateView, player: u8) -> Result<Option<u8>, RuleError> {
    if player != s.turn || s.mode != Mode::Bidding {
        Ok(None)
    } else if player >= 3 {
        Err(RuleError::NoSuchSeat)
    } else if must_raise(s.bids, player as int) {
        match next_bid(max_bid(s.bids)) {
            Some(n) => Ok(Some(n)),
            None => Err(RuleError::UnknownBid),
        }
    } else {
        Ok(Some(max_bid(s.bids)))
    }
}

/// `action` is one of the actions `player` may take in `s`.
pub open spec fn is_available(s: StateView, action: Action, player: u8) -> bool {
    match offer(s, player) {
        Ok(Some(b)) => action == Action::Bid(b) || action == Action::Pass,
        _ => false,
    }
}

/// Who speaks after a bid, given the bids with that bid recorded.
pub open spec fn next_bidder(bids: Seq<u8>) -> Result<u8, RuleError> {
    let f = bids[0];
    let m = bids[1];
    let r = bids[2];
    if r == 0 && f == m {
        Ok(1)
    } else if r == 0 && m > f {
        Ok(0)
    } else if f == r && m <= f {
        Ok(2)
    } else if r > f && m <= f {
        Ok(0)
    } else if m == r && m > f {
        Ok(2)
    } else if r > m && m > f {
        Ok(1)
    } else {
        Err(RuleError::InconsistentBids)
    }
}

/// The state after the player on turn passes.
pub open spec fn after_pass(s: StateView) -> StateView {
    if s.bids[0] == 0 && s.bids[1] == 0 && s.bids[2] == 0 {
        if s.turn == 1 {
            StateView { turn: 2, ..s }
        } else if s.turn == 2 {
            StateView { turn: 0, ..s }
        } else {
            StateView { mode: Mode::Finished, ..s }
        }
    } else if s.turn == 0 || s.turn == 1 {
        if s.bids[2] != 0 {
            StateView { turn: 2, mode: Mode::Announcing, ..s }
        } else {
            StateView { turn: 2, ..s }
        }
    } else if s.bids[0] < s.bids[1] {
        StateView { turn: 1, mode: Mode::Announcing, ..s }
    } else {
        StateView { turn: 0, mode: Mode::Announcing, ..s }
    }
}

/// One move of the bidding machine: `Ok(None)` when the action is rejected,
/// `Ok(Some(t))` when it is taken and leads to `t`, `Err` on a broken state.
pub open spec fn step(s: StateView, action: Action, player: u8) -> Result<Option<StateView>, RuleError> {
    match offer(s, player) {
        Err(e) => Err(e),
        Ok(None) => Ok(None),
        Ok(Some(b)) => match action {
            Action::Pass => Ok(Some(after_pass(s))),
            Action::Bid(n) => if n == b {
                let bids = s.bids.update(player as int, n);
                match next_bidder(bids) {
                    Ok(t) => Ok(Some(StateView { bids: bids, turn: t, ..s })),
                    Err(e) => Err(e),
                }
            } else {
                Ok(None)
            },
            _ => Ok(None),
        },
    }
}

/// The state after `apply_action`, whatever it returned: the state `step`
/// leads to when the action is taken, else the state unchanged.
pub open spec fn after_action(s: StateView, action: Action, player: u8) -> StateView {
    match step(s, action, player) {
        Ok(Some(t)) => t,
        _ => s,
    }
}

/// The next value on the bid ladder.
fn get_next_bid(bid: u8) -> (r: Result<u8, RuleError>)
    ensures
        r == match next_bid(bid) {
            Some(n) => Ok::<u8, RuleError>(n),
            None => Err(RuleError::UnknownBid),
        },
{
    match bid {
        0 => Ok(18),
        18 => Ok(20),
        20 => Ok(22),
        22 => Ok(23),
        23 => Ok(24),
        24 => Ok(27),
        27 => Ok(30),
        30 => Ok(33),
        33 => Ok(35),
        35 => Ok(36),
        36 => Ok(40),
        _ => Err(RuleError::UnknownBid),
    }
}

/// The seat that speaks after a bid has been recorded in `bids`.
fn get_next_bidder(bids: &[u8; 3]) -> (r: Result<u8, RuleError>)
    ensures
        r == next_bidder(bids@),
{
    let f = bids[0];
    let m = bids[1];
    let r = bids[2];
    if r == 0 && f == m {
        // forehand has matched middlehand
        Ok(1)
    } else if r == 0 && m > f {
        // middlehand has raised over forehand
        Ok(0)
    } else if f == r && m <= f {
        // rearhand has matched forehand
        Ok(2)
    } else if r > f && m <= f {
        // rearhand has raised over forehand
        Ok(0)
    } else if m == r && m > f {
        // rearhand has matched middlehand
        Ok(2)
    } else if r > m && m > f {
        // rearhand has raised over middlehand
        Ok(1)
    } else {
        Err(RuleError::InconsistentBids)
    }
}

/// The bid value `player` may offer in `state`.
fn offered_bid(state: &State, player: u8) -> (r: Result<Option<u8>, RuleError>)
    ensures
        r == offer(state@, player),
{
    if player != state.turn {
        return Ok(None);
    }
    match state.mode {
        Mode::Bidding => {},
        _ => {
            return Ok(None);
        },
    }
    if player >= 3 {
        return Err(RuleError::NoSuchSeat);
    }
    let b0 = state.bids[0];
    let b1 = state.bids[1];
    let b2 = state.bids[2];
    let m = if b0 >= b1 { b0 } else { b1 };
    let max_bid = if m >= b2 { m } else { b2 };
    let player_bid = state.bids[player as usize];
    if player_bid == max_bid || (player_bid == 0 && player == 2) {
        // the player must raise
        match get_next_bid(max_bid) {
            Ok(n) => Ok(Some(n)),
            Err(e) => Err(e),
        }
    } else {
        // the player must match
        Ok(Some(max_bid))
    }
}

/// All card slots of the hands and the skat, in seat order, skat last.
pub open spec fn dealt(r: Round) -> Seq<Option<Card>> {
    r.forehand@ + r.middlehand@ + r.rearhand@ + r.skat@
}

/// The slots that dealing `deck` fills, in order.
pub open spec fn slots_of(deck: Seq<Card>) -> Seq<Option<Card>> {
    deck.map_values(|c: Card| Some(c))
}

/// Dealing a shuffled full deck gives out every card exactly once and leaves
/// no slot empty.
pub proof fn lemma_deal_covers_deck(deck: Seq<Card>)
    requires
        is_permutation(full_deck(), deck),
    ensures
        slots_of(deck).len() == 32,
        slots_of(deck).no_duplicates(),
        forall|c: Card| slots_of(deck).contains(Some(c)),
        forall|i: int| 0 <= i < 32 ==> slots_of(deck)[i] is Some,
{
    broadcast use vstd::seq_lib::group_to_multiset_ensures;

    lemma_full_deck_complete();
    full_deck().lemma_multiset_has_no_duplicates();
    deck.lemma_multiset_has_no_duplicates_conv();
    let slots = slots_of(deck);
    assert forall|c: Card| slots.contains(Some(c)) by {
        assert(full_deck().contains(c));
        assert(full_deck().to_multiset().count(c) > 0);
        assert(deck.contains(c));
        let i = choose|i: int| 0 <= i < deck.len() && deck[i] == c;
        assert(slots[i] == Some(c));
    }
    assert forall|i: int, j: int| 0 <= i < slots.len() && 0 <= j < slots.len() && i != j implies slots[i]
        != slots[j] by {
        assert(deck[i] != deck[j]);
    }
}

/// A round dealt from `deck`: ten cards to each hand in seat order, the last
/// two to the skat, the trick empty and the state initial.
pub fn deal(deck: &Vec<Card>) -> (r: Round)
    requires
        deck@.len() == 32,
    ensures
        dealt(r) == slots_of(deck@),
        r.state@ == initial_state(),
        forall|i: int| 0 <= i < 3 ==> r.trick@[i] is None,
{
    let state = State { bids: [0; 3], modifier: 1, turn: 1, mode: Mode::Bidding };
    let mut round = Round {
        state: state,
        forehand: [None; 10],
        middlehand: [None; 10],
        rearhand: [None; 10],
        skat: [None; 2],
        trick: [None; 3],
    };
    let mut i: usize = 0;
    while i < 10
        invariant
            i <= 10,
            deck@.len() == 32,
            forall|k: int| 0 <= k < i ==> round.forehand@[k] == Some(deck@[k]),
            forall|k: int| 0 <= k < i ==> round.middlehand@[k] == Some(deck@[10 + k]),
            forall|k: int| 0 <= k < i ==> round.rearhand@[k] == Some(deck@[20 + k]),
            round.state == state,
            forall|k: int| 0 <= k < 3 ==> round.trick@[k] is None,
        decreases 10 - i,
    {
        round.forehand[i] = Some(deck[i]);
        round.middlehand[i] = Some(deck[10 + i]);
        round.rearhand[i] = Some(deck[20 + i]);
        i = i + 1;
    }
    round.skat[0] = Some(deck[30]);
    round.skat[1] = Some(deck[31]);
    assert(dealt(round) =~= slots_of(deck@));
    assert(round.state@.bids =~= seq![0u8, 0u8, 0u8]);
    round
}

/// A fresh round dealt from a shuffled deck.
pub fn new_round() -> (r: Round)
    ensures
        r.state@ == initial_state(),
        forall|i: int| 0 <= i < 3 ==> r.trick@[i] is None,
        dealt(r).len() == 32,
        dealt(r).no_duplicates(),
        forall|c: Card| dealt(r).contains(Some(c)),
        forall|i: int| 0 <= i < 32 ==> dealt(r)[i] is Some,
{
    let deck = new_deck();
    proof {
        lemma_deal_covers_deck(deck@);
    }
    deal(&deck)
}

/// The actions `player` may take now: `Bid` of the one legal value, and `Pass`.
/// `Ok(None)` when it is not that player's turn or the round is not in bidding.
pub fn available_actions(round: &Round, player: u8) -> (r: Result<Option<Vec<Action>>, RuleError>)
    ensures
        match offer(round.state@, player) {
            Ok(Some(b)) => r matches Ok(Some(v)) && v@ == seq![Action::Bid(b), Action::Pass],
            Ok(None) => r matches Ok(None),
            Err(e) => r == Err::<Option<Vec<Action>>, RuleError>(e),
        },
        player != round.state.turn ==> r matches Ok(None),
{
    match offered_bid(&round.state, player) {
        Err(e) => Err(e),
        Ok(None) => Ok(None),
        Ok(Some(bid)) => {
            let mut actions: Vec<Action> = Vec::new();
            actions.push(Action::Bid(bid));
            actions.push(Action::Pass);
            assert(actions@ =~= seq![Action::Bid(bid), Action::Pass]);
            Ok(Some(actions))
        },
    }
}

/// Applies `action` by `player` to the round. `Ok(true)`: the action was taken
/// and the state moved on as `step` says. `Ok(false)`: the action is not among
/// the available ones and nothing changed. `Err`: the state is broken and
/// nothing changed.
pub fn apply_action(round: &mut Round, action: Action, player: u8) -> (r: Result<bool, RuleError>)
    ensures
        match step(old(round).state@, action, player) {
            Ok(Some(t)) => r == Ok::<bool, RuleError>(true) && final(round).state@ == t,
            Ok(None) => r == Ok::<bool, RuleError>(false) && final(round).state == old(round).state,
            Err(e) => r == Err::<bool, RuleError>(e) && final(round).state == old(round).state,
        },
        final(round).state@ == after_action(old(round).state@, action, player),
        !is_available(old(round).state@, action, player) ==> r != Ok::<bool, RuleError>(true)
            && final(round).state == old(round).state,
        final(round).forehand == old(round).forehand,
        final(round).middlehand == old(round).middlehand,
        final(round).rearhand == old(round).rearhand,
        final(round).skat == old(round).skat,
        final(round).trick == old(round).trick,
{
    let bid = match offered_bid(&round.state, player) {
        Err(e) => {
            return Err(e);
        },
        Ok(None) => {
            return Ok(false);
        },
        Ok(Some(bid)) => bid,
    };
    let turn = round.state.turn;
    match action {
        Action::Pass => {
            let bids = round.state.bids;
            if bids[0] == 0 && bids[1] == 0 && bids[2] == 0 {
                if turn == 1 {
                    round.state.turn = 2;
                } else if turn == 2 {
                    round.state.turn = 0;
                } else {
                    // everyone passed
                    round.state.mode = Mode::Finished;
                }
            } else if turn == 0 || turn == 1 {
                // rearhand either has not bid yet or has won
                round.state.turn = 2;
                if bids[2] != 0 {
                    round.state.mode = Mode::Announcing;
                }
            } else {
                // forehand or middlehand has won
                round.state.mode = Mode::Announcing;
                if bids[0] < bids[1] {
                    round.state.turn = 1;
                } else {
                    round.state.turn = 0;
                }
            }
            assert(round.state@ =~= after_pass(old(round).state@));
            Ok(true)
        },
        Action::Bid(n) => {
            if n != bid {
                return Ok(false);
            }
            let mut bids = round.state.bids;
            bids[turn as usize] = n;
            let next = match get_next_bidder(&bids) {
                Ok(t) => t,
                Err(e) => {
                    return Err(e);
                },
            };
            round.state.bids = bids;
            round.state.turn = next;
            assert(round.state@.bids =~= old(round).state@.bids.update(player as int, n));
            Ok(true)
        },
        _ => Ok(false),
    }
}

} // verus!
