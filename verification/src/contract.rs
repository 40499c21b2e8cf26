//! The contract state and its verified entry points.
use vstd::prelude::*;

use crate::model::{
    complete_result, count_active, count_won, init_model, lemma_complete_wf,
    lemma_count_active_bounds, lemma_count_won_at, lemma_count_won_bounds, lemma_counts_take_step,
    lemma_move_wf, lemma_start_wf, lemma_total_moves_at, lemma_total_moves_take_le, move_result,
    next_session_id, sentinel_game_model, session_active, session_exists, start_result,
    total_moves_of, ContractModel, GameModel,
};
use crate::types::{Game, GameError, GameStats, Player};

verus! {

/// The models of a sequence of session records, in the same order.
pub open spec fn games_view(games: Seq<Game>) -> Seq<GameModel> {
    games.map_values(|g: Game| g@)
}

/// The model a contract state built from these three stored entities would
/// have, whether or not they are consistent with one another.
pub open spec fn parts_model(game_count: u64, stats: GameStats, games: Seq<Game>) -> ContractModel {
    ContractModel { game_count: game_count as nat, stats: stats@, games: games_view(games) }
}

/// The whole state a deployment of the contract keeps: the last assigned
/// session identifier, the aggregate statistics, and one record per session,
/// where session `id` sits at position `id - 1`.
pub struct SolitaireContract {
    game_count: u64,
    stats: GameStats,
    games: Vec<Game>,
}

impl View for SolitaireContract {
    type V = ContractModel;

    closed spec fn view(&self) -> ContractModel {
        parts_model(self.game_count, self.stats, self.games@)
    }
}

impl SolitaireContract {
    /// A freshly deployed contract: no sessions, all counters zero.
    pub fn new() -> (c: SolitaireContract)
        ensures
            c@ == init_model(),
            c@.wf(),
    {
        let c = SolitaireContract {
            game_count: 0,
            stats: GameStats { total_games: 0, games_won: 0, games_in_progress: 0, total_moves: 0 },
            games: Vec::new(),
        };
        proof {
            assert(c@.games =~= init_model().games);
            assert(c@ =~= init_model());
        }
        c
    }

    /// Start a new session for `player` at ledger time `now` and return the
    /// identifier it was assigned: one more than the previous count.
    ///
    /// The caller must already have proved ownership of `player` to the host
    /// platform; this function only records the session.
    pub fn start_game(&mut self, player: Player, now: u64) -> (id: u64)
        requires
            old(self)@.wf(),
            old(self)@.game_count < u64::MAX,
        ensures
            final(self)@.wf(),
            id == next_session_id(old(self)@),
            final(self)@ == start_result(old(self)@, player@, now as nat),
    {
        let ghost pre = self@;
        let ghost pv = player@;
        proof {
            lemma_count_active_bounds(pre.games);
        }
        let id: u64 = self.game_count + 1;
        let game = Game {
            game_id: id,
            player: player,
            moves: 0,
            start_time: now,
            end_time: 0,
            is_won: false,
            is_active: true,
        };
        self.game_count = id;
        self.stats.total_games = self.stats.total_games + 1;
        self.stats.games_in_progress = self.stats.games_in_progress + 1;
        self.games.push(game);
        proof {
            lemma_start_wf(pre, pv, now as nat);
            assert(self@.games =~= start_result(pre, pv, now as nat).games);
            assert(self@ =~= start_result(pre, pv, now as nat));
        }
        id
    }

    /// Record one move on session `game_id`.
    ///
    /// Succeeds exactly when the session exists and is still in progress,
    /// raising its move count and the global move total by one; otherwise
    /// the call is refused and the state is left unchanged.
    pub fn record_move(&mut self, game_id: u64) -> (r: Result<(), GameError>)
        requires
            old(self)@.wf(),
            old(self)@.stats.total_moves < u64::MAX,
        ensures
            final(self)@.wf(),
            match r {
                Ok(()) => session_active(old(self)@, game_id as nat) && final(self)@
                    == move_result(old(self)@, game_id as nat),
                Err(e) => e == GameError::NotActive && !session_active(old(self)@, game_id as nat)
                    && final(self)@ == old(self)@,
            },
    {
        let ghost pre = self@;
        if game_id == 0 || game_id > self.game_count {
            return Err(GameError::NotActive);
        }
        let n: usize = self.games.len();
        proof {
            assert(pre.games.len() == self.games@.len());
            assert(n == pre.game_count);
        }
        let idx = (game_id - 1) as usize;
        proof {
            assert(pre.games[idx as int] == self.games@[idx as int]@);
        }
        if !self.games[idx].is_active {
            return Err(GameError::NotActive);
        }
        proof {
            assert(session_active(pre, game_id as nat));
            lemma_total_moves_at(pre.games, idx as int);
        }
        let updated = Game {
            game_id: self.games[idx].game_id,
            player: self.games[idx].player.clone(),
            moves: self.games[idx].moves + 1,
            start_time: self.games[idx].start_time,
            end_time: self.games[idx].end_time,
            is_won: self.games[idx].is_won,
            is_active: self.games[idx].is_active,
        };
        self.games[idx] = updated;
        self.stats.total_moves = self.stats.total_moves + 1;
        proof {
            lemma_move_wf(pre, game_id as nat);
            assert(self@.games =~= move_result(pre, game_id as nat).games);
            assert(self@ =~= move_result(pre, game_id as nat));
        }
        Ok(())
    }

    /// Complete session `game_id`, marking it won exactly when `won` holds
    /// and stamping `now` as its end time.
    ///
    /// Succeeds exactly when the session exists and is still in progress:
    /// the session leaves the in-progress count, and the win count rises by
    /// one exactly when `won` holds. Otherwise the call is refused and the
    /// state is left unchanged.
    pub fn complete_game(&mut self, game_id: u64, won: bool, now: u64) -> (r: Result<
        (),
        GameError,
    >)
        requires
            old(self)@.wf(),
        ensures
            final(self)@.wf(),
            match r {
                Ok(()) => session_active(old(self)@, game_id as nat) && final(self)@
                    == complete_result(old(self)@, game_id as nat, won, now as nat),
                Err(e) => e == GameError::AlreadyCompleted && !session_active(
                    old(self)@,
                    game_id as nat,
                ) && final(self)@ == old(self)@,
            },
    {
        let ghost pre = self@;
        if game_id == 0 || game_id > self.game_count {
            return Err(GameError::AlreadyCompleted);
        }
        let n: usize = self.games.len();
        proof {
            assert(pre.games.len() == self.games@.len());
            assert(n == pre.game_count);
        }
        let idx = (game_id - 1) as usize;
        proof {
            assert(pre.games[idx as int] == self.games@[idx as int]@);
        }
        if !self.games[idx].is_active {
            return Err(GameError::AlreadyCompleted);
        }
        proof {
            assert(session_active(pre, game_id as nat));
            lemma_complete_wf(pre, game_id as nat, won, now as nat);
            lemma_count_won_at(pre.games, idx as int);
        }
        let updated = Game {
            game_id: self.games[idx].game_id,
            player: self.games[idx].player.clone(),
            moves: self.games[idx].moves,
            start_time: self.games[idx].start_time,
            end_time: now,
            is_won: won,
            is_active: false,
        };
        self.games[idx] = updated;
        self.stats.games_in_progress = self.stats.games_in_progress - 1;
        if won {
            self.stats.games_won = self.stats.games_won + 1;
        }
        proof {
            assert(self@.games =~= complete_result(pre, game_id as nat, won, now as nat).games);
            assert(self@ =~= complete_result(pre, game_id as nat, won, now as nat));
        }
        Ok(())
    }

    /// Rebuild a contract state from its three stored entities: the session
    /// counter, the aggregate statistics, and the session records in order
    /// of their identifiers.
    ///
    /// Returns the state exactly when the entities are consistent: the
    /// counter matches the number of records, identifiers run from one
    /// upward, no record is both in progress and won, and every aggregate
    /// counter agrees with the records. Otherwise nothing is returned.
    pub fn from_parts(game_count: u64, stats: GameStats, games: Vec<Game>) -> (r: Option<
        SolitaireContract,
    >)
        ensures
            match r {
                Some(c) => parts_model(game_count, stats, games@).wf() && c@ == parts_model(
                    game_count,
                    stats,
                    games@,
                ),
                None => !parts_model(game_count, stats, games@).wf(),
            },
    {
        let ghost m = parts_model(game_count, stats, games@);
        let n: usize = games.len();
        proof {
            assert(m.games.len() == games@.len());
        }
        if game_count != n as u64 {
            return None;
        }
        let mut active_cnt: u64 = 0;
        let mut won_cnt: u64 = 0;
        let mut moves_sum: u64 = 0;
        let mut i: usize = 0;
        while i < n
            invariant
                i <= n,
                n == games@.len(),
                m == parts_model(game_count, stats, games@),
                m.games.len() == n,
                forall|k: int| 0 <= k < i ==> (#[trigger] m.games[k]).game_id == k + 1,
                forall|k: int|
                    0 <= k < i ==> ((#[trigger] m.games[k]).is_active ==> !m.games[k].is_won),
                active_cnt == count_active(m.games.take(i as int)),
                won_cnt == count_won(m.games.take(i as int)),
                moves_sum == total_moves_of(m.games.take(i as int)),
            decreases n - i,
        {
            proof {
                assert(m.games[i as int] == games@[i as int]@);
                lemma_count_active_bounds(m.games.take(i as int));
                lemma_count_won_bounds(m.games.take(i as int));
            }
            let g = &games[i];
            if g.game_id != (i as u64) + 1 {
                return None;
            }
            if g.is_active && g.is_won {
                return None;
            }
            if g.moves > u64::MAX - moves_sum {
                // The true move total does not fit the stored counter, so the
                // entities cannot be consistent.
                proof {
                    lemma_counts_take_step(m.games, i as int);
                    lemma_total_moves_take_le(m.games, i as int + 1);
                }
                return None;
            }
            moves_sum = moves_sum + g.moves;
            if g.is_active {
                active_cnt = active_cnt + 1;
            }
            if g.is_won {
                won_cnt = won_cnt + 1;
            }
            proof {
                lemma_counts_take_step(m.games, i as int);
            }
            i = i + 1;
        }
        proof {
            assert(m.games.take(n as int) =~= m.games);
        }
        if stats.total_games != game_count {
            return None;
        }
        if stats.games_in_progress != active_cnt {
            return None;
        }
        if stats.games_won != won_cnt {
            return None;
        }
        if stats.total_moves != moves_sum {
            return None;
        }
        let c = SolitaireContract { game_count, stats, games };
        proof {
            assert(c@ =~= m);
        }
        Some(c)
    }

    /// How many sessions have been started; also the identifier the last
    /// started session received.
    pub fn get_game_count(&self) -> (n: u64)
        ensures
            n == self@.game_count,
    {
        self.game_count
    }

    /// The aggregate statistics over every session ever started.
    pub fn get_game_stats(&self) -> (s: GameStats)
        ensures
            s@ == self@.stats,
    {
        self.stats
    }

    /// The record of session `game_id`, or the sentinel record (inactive,
    /// zeroed, with a fixed placeholder identity) when that identifier was
    /// never assigned.
    pub fn get_game_by_id(&self, game_id: u64) -> (g: Game)
        requires
            self@.wf(),
        ensures
            session_exists(self@, game_id as nat) ==> g@ == self@.games[game_id - 1],
            !session_exists(self@, game_id as nat) ==> g@ == sentinel_game_model(),
    {
        if game_id >= 1 && game_id <= self.game_count {
            let n: usize = self.games.len();
            proof {
                assert(self@.games.len() == self.games@.len());
                assert(n == self@.game_count);
            }
            let idx = (game_id - 1) as usize;
            let g = self.games[idx].clone();
            proof {
                assert(g@ == self@.games[idx as int]);
            }
            g
        } else {
            Game {
                game_id: 0,
                player: Player {
                    key: String::from_str(
                        "GAAAAAAAAAAAAAAAAAAAAAAAAAAAAAAAAAAAAAAAAAAAAAAAAAAAAWHF",
                    ),
                },
                moves: 0,
                start_time: 0,
                end_time: 0,
                is_won: false,
                is_active: false,
            }
        }
    }
}

} // verus!
