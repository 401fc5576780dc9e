//! A game table: three seats held by player ids, and the rounds played there.
//! An id of 0 marks an empty seat.
use vstd::prelude::*;

use crate::card::Card;
use crate::game::Round;

verus! {

pub struct Game {
    pub rounds: Vec<Round>,
    /// Player ids of forehand, middlehand and rearhand, in that order.
    pub player_ids: (u32, u32, u32),
}

/// Why a player could not take a seat.
#[derive(Clone, Copy, Debug, PartialEq, Eq, Structural)]
pub enum JoinError {
    /// All three seats are taken.
    GameFull,
    /// 0 is not a player id: it marks an empty seat.
    ReservedId,
}

/// The seat a new player takes: the first empty one, counting from forehand
/// as long as the later seats are empty too; `None` when the table is full.
pub open spec fn free_seat(ids: (u32, u32, u32)) -> Option<u8> {
    if ids.0 == 0 && ids.1 == 0 && ids.2 == 0 {
        Some(0)
    } else if ids.1 == 0 && ids.2 == 0 {
        Some(1)
    } else if ids.2 == 0 {
        Some(2)
    } else {
        None
    }
}

/// The ids with the seat `seat` given to `id`.
pub open spec fn with_seat(ids: (u32, u32, u32), seat: u8, id: u32) -> (u32, u32, u32) {
    if seat == 0 {
        (id, ids.1, ids.2)
    } else if seat == 1 {
        (ids.0, id, ids.2)
    } else {
        (ids.0, ids.1, id)
    }
}

/// Moves every player one seat on, forehand's player going to rearhand.
pub fn rotate_players(game: &mut Game)
    ensures
        final(game).player_ids == (old(game).player_ids.1, old(game).player_ids.2, old(
            game,
        ).player_ids.0),
        final(game).rounds@ == old(game).rounds@,
{
    game.player_ids = (game.player_ids.1, game.player_ids.2, game.player_ids.0);
}

impl Game {
    /// A table with no players and no rounds.
    pub fn new() -> (g: Game)
        ensures
            g.rounds@.len() == 0,
            g.player_ids == (0u32, 0u32, 0u32),
    {
        Game { rounds: Vec::new(), player_ids: (0, 0, 0) }
    }

    /// Seats `player_id` in the free seat and returns that seat.
    pub fn join(&mut self, player_id: u32) -> (r: Result<u8, JoinError>)
        ensures
            player_id == 0 ==> r == Err::<u8, JoinError>(JoinError::ReservedId)
                && final(self).player_ids == old(self).player_ids,
            player_id != 0 ==> match free_seat(old(self).player_ids) {
                Some(seat) => r == Ok::<u8, JoinError>(seat) && final(self).player_ids
                    == with_seat(old(self).player_ids, seat, player_id),
                None => r == Err::<u8, JoinError>(JoinError::GameFull) && final(self).player_ids
                    == old(self).player_ids,
            },
            final(self).rounds@ == old(self).rounds@,
    {
        if player_id == 0 {
            return Err(JoinError::ReservedId);
        }
        let (f, m, r) = self.player_ids;
        if f == 0 && m == 0 && r == 0 {
            self.player_ids.0 = player_id;
            Ok(0)
        } else if m == 0 && r == 0 {
            self.player_ids.1 = player_id;
            Ok(1)
        } else if r == 0 {
            self.player_ids.2 = player_id;
            Ok(2)
        } else {
            Err(JoinError::GameFull)
        }
    }

    /// Adds a round to the table; the seats move on for it.
    pub fn start_round(&mut self, round: Round)
        ensures
            final(self).rounds@ == old(self).rounds@.push(round),
            final(self).player_ids == (old(self).player_ids.1, old(self).player_ids.2, old(
                self,
            ).player_ids.0),
    {
        self.rounds.push(round);
        rotate_players(self);
    }

    /// The hand that `player_id` holds in the latest round: the first seat with
    /// that id, counting from forehand. `None` when there is no round yet or
    /// the id holds no seat.
    pub fn hand_of(&self, player_id: u32) -> (r: Option<[Option<Card>; 10]>)
        ensures
            self.rounds@.len() == 0 ==> r is None,
            self.rounds@.len() > 0 ==> r == {
                let last = self.rounds@.last();
                if player_id == self.player_ids.0 {
                    Some(last.forehand)
                } else if player_id == self.player_ids.1 {
                    Some(last.middlehand)
                } else if player_id == self.player_ids.2 {
                    Some(last.rearhand)
                } else {
                    None
                }
            },
    {
        let n = self.rounds.len();
        if n == 0 {
            return None;
        }
        let (f, m, r) = self.player_ids;
        let round = &self.rounds[n - 1];
        if player_id == f {
            Some(round.forehand)
        } else if player_id == m {
            Some(round.middlehand)
        } else if player_id == r {
            Some(round.rearhand)
        } else {
            None
        }
    }
}

} // verus!
