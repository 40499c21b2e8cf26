//! Laws that relate several transitions of the contract model.
//!
//! The entry points of [`crate::contract::SolitaireContract`] promise, one
//! call at a time, that the state follows the transition functions of
//! [`crate::model`]. The proofs here state what chains of those transitions
//! guarantee.
use vstd::prelude::*;

use crate::model::{
    complete_result, init_model, lemma_complete_wf, lemma_move_wf, move_result, next_session_id,
    session_active, start_result, ContractModel,
};

verus! {

/// The state after `n` moves were recorded on session `game_id`, one at a
/// time.
pub open spec fn after_moves(m: ContractModel, game_id: nat, n: nat) -> ContractModel
    decreases n,
{
    if n == 0 {
        m
    } else {
        move_result(after_moves(m, game_id, (n - 1) as nat), game_id)
    }
}

/// The state after one session was started for each player in `players`, in
/// order, at the matching times.
pub open spec fn after_starts(
    m: ContractModel,
    players: Seq<Seq<char>>,
    times: Seq<nat>,
) -> ContractModel
    decreases players.len(),
{
    if players.len() == 0 {
        m
    } else {
        start_result(
            after_starts(m, players.drop_last(), times.drop_last()),
            players.last(),
            times.last(),
        )
    }
}

pub proof fn lemma_after_starts_count(m: ContractModel, players: Seq<Seq<char>>, times: Seq<nat>)
    ensures
        after_starts(m, players, times).game_count == m.game_count + players.len(),
    decreases players.len(),
{
    if players.len() > 0 {
        lemma_after_starts_count(m, players.drop_last(), times.drop_last());
    }
}

/// Law: over any run of consecutive starts, the identifier assigned by the
/// start at position `k` (counted from zero) is `game_count + k + 1`. The
/// identifiers handed out therefore grow strictly, and on a fresh contract
/// they are exactly the sequence 1, 2, 3, ...
pub proof fn lemma_session_ids_strictly_increase(
    m: ContractModel,
    players: Seq<Seq<char>>,
    times: Seq<nat>,
    k: int,
)
    requires
        players.len() == times.len(),
        0 <= k <= players.len(),
    ensures
        next_session_id(after_starts(m, players.take(k), times.take(k))) == m.game_count + k + 1,
        m == init_model() ==> next_session_id(after_starts(m, players.take(k), times.take(k)))
            == k + 1,
{
    lemma_after_starts_count(m, players.take(k), times.take(k));
}

/// Law: after starting one session in a fresh contract, exactly one game has
/// been played and exactly one is in progress.
pub proof fn lemma_first_start_counts(player: Seq<char>, now: nat)
    ensures
        start_result(init_model(), player, now).stats.total_games == 1,
        start_result(init_model(), player, now).stats.games_in_progress == 1,
{
}

/// Law: recording `n` moves on an active session raises that session's move
/// count by `n` and the global move total by `n`, keeps the session active,
/// and preserves well-formedness.
pub proof fn lemma_n_moves_add_n(m: ContractModel, game_id: nat, n: nat)
    requires
        m.wf(),
        session_active(m, game_id),
    ensures
        after_moves(m, game_id, n).wf(),
        session_active(after_moves(m, game_id, n), game_id),
        after_moves(m, game_id, n).games[game_id - 1].moves == m.games[game_id - 1].moves + n,
        after_moves(m, game_id, n).stats.total_moves == m.stats.total_moves + n,
    decreases n,
{
    if n > 0 {
        lemma_n_moves_add_n(m, game_id, (n - 1) as nat);
        lemma_move_wf(after_moves(m, game_id, (n - 1) as nat), game_id);
    }
}

/// Law: completing an active session decrements the in-progress count by
/// one, and increments the win count exactly when the session was won.
pub proof fn lemma_complete_updates_stats(m: ContractModel, game_id: nat, won: bool, now: nat)
    requires
        m.wf(),
        session_active(m, game_id),
    ensures
        complete_result(m, game_id, won, now).wf(),
        complete_result(m, game_id, won, now).stats.games_in_progress == m.stats.games_in_progress
            - 1,
        complete_result(m, game_id, won, now).stats.games_won == m.stats.games_won + (if won {
            1int
        } else {
            0int
        }),
        complete_result(m, game_id, won, now).stats.total_games == m.stats.total_games,
        complete_result(m, game_id, won, now).stats.total_moves == m.stats.total_moves,
{
    lemma_complete_wf(m, game_id, won, now);
}

} // verus!
