//! Mathematical model of the contract state and of its transitions.
//!
//! Each executable operation on [`crate::contract::SolitaireContract`] is
//! specified against a transition function defined here over ghost values:
//! starting a session, recording a move, and completing a session.
use vstd::prelude::*;

verus! {

/// Model of one session record.
#[verifier::ext_equal]
pub ghost struct GameModel {
    pub game_id: nat,
    pub player: Seq<char>,
    pub moves: nat,
    pub start_time: nat,
    pub end_time: nat,
    pub is_won: bool,
    pub is_active: bool,
}

/// Model of the aggregate statistics.
#[verifier::ext_equal]
pub ghost struct StatsModel {
    pub total_games: nat,
    pub games_won: nat,
    pub games_in_progress: nat,
    pub total_moves: nat,
}

/// Model of the whole contract state: the last assigned session identifier,
/// the aggregate statistics, and every session record, where the record of
/// session `id` sits at position `id - 1`.
#[verifier::ext_equal]
pub ghost struct ContractModel {
    pub game_count: nat,
    pub stats: StatsModel,
    pub games: Seq<GameModel>,
}

/// How many of the sessions are still in progress.
pub open spec fn count_active(s: Seq<GameModel>) -> int
    decreases s.len(),
{
    if s.len() == 0 {
        0
    } else {
        (if s.last().is_active {
            1int
        } else {
            0int
        }) + count_active(s.drop_last())
    }
}

/// How many of the sessions were completed with a win.
pub open spec fn count_won(s: Seq<GameModel>) -> int
    decreases s.len(),
{
    if s.len() == 0 {
        0
    } else {
        (if s.last().is_won {
            1int
        } else {
            0int
        }) + count_won(s.drop_last())
    }
}

/// The moves recorded so far, summed over all sessions.
pub open spec fn total_moves_of(s: Seq<GameModel>) -> int
    decreases s.len(),
{
    if s.len() == 0 {
        0
    } else {
        s.last().moves + total_moves_of(s.drop_last())
    }
}

impl ContractModel {
    /// Well-formedness of a contract state: identifiers are the positions
    /// shifted by one, and every aggregate counter agrees with the records.
    pub open spec fn wf(self) -> bool {
        &&& self.games.len() == self.game_count
        &&& forall|i: int|
            0 <= i < self.games.len() ==> (#[trigger] self.games[i]).game_id == i + 1
        &&& forall|i: int|
            0 <= i < self.games.len() ==> ((#[trigger] self.games[i]).is_active
                ==> !self.games[i].is_won)
        &&& self.stats.total_games == self.game_count
        &&& self.stats.games_in_progress == count_active(self.games)
        &&& self.stats.games_won == count_won(self.games)
        &&& self.stats.total_moves == total_moves_of(self.games)
    }
}

/// The state of a freshly deployed contract: nothing recorded yet.
pub open spec fn init_model() -> ContractModel {
    ContractModel {
        game_count: 0,
        stats: StatsModel { total_games: 0, games_won: 0, games_in_progress: 0, total_moves: 0 },
        games: Seq::empty(),
    }
}

/// The identifier that the next started session will receive.
pub open spec fn next_session_id(m: ContractModel) -> nat {
    m.game_count + 1
}

/// A session with this identifier has been started at some point.
pub open spec fn session_exists(m: ContractModel, game_id: nat) -> bool {
    1 <= game_id <= m.games.len()
}

/// A session with this identifier exists and is still in progress.
pub open spec fn session_active(m: ContractModel, game_id: nat) -> bool {
    session_exists(m, game_id) && m.games[game_id - 1].is_active
}

/// The record a newly started session receives.
pub open spec fn new_game_model(game_id: nat, player: Seq<char>, now: nat) -> GameModel {
    GameModel {
        game_id: game_id,
        player: player,
        moves: 0,
        start_time: now,
        end_time: 0,
        is_won: false,
        is_active: true,
    }
}

/// Transition: starting a session appends its record and counts it as
/// started and in progress.
pub open spec fn start_result(pre: ContractModel, player: Seq<char>, now: nat) -> ContractModel {
    ContractModel {
        game_count: pre.game_count + 1,
        stats: StatsModel {
            total_games: pre.stats.total_games + 1,
            games_in_progress: pre.stats.games_in_progress + 1,
            ..pre.stats
        },
        games: pre.games.push(new_game_model(pre.game_count + 1, player, now)),
    }
}

/// Transition: recording a move raises the session's move count and the
/// global move total by one.
pub open spec fn move_result(pre: ContractModel, game_id: nat) -> ContractModel {
    let g = pre.games[game_id - 1];
    ContractModel {
        game_count: pre.game_count,
        stats: StatsModel { total_moves: pre.stats.total_moves + 1, ..pre.stats },
        games: pre.games.update(game_id - 1, GameModel { moves: g.moves + 1, ..g }),
    }
}

/// Transition: completing a session retires it, keeps its final move count,
/// stamps the end time, and counts a win exactly when `won` holds.
pub open spec fn complete_result(pre: ContractModel, game_id: nat, won: bool, now: nat) -> ContractModel {
    let g = pre.games[game_id - 1];
    ContractModel {
        game_count: pre.game_count,
        stats: StatsModel {
            games_in_progress: (pre.stats.games_in_progress - 1) as nat,
            games_won: pre.stats.games_won + if won {
                1nat
            } else {
                0nat
            },
            ..pre.stats
        },
        games: pre.games.update(
            game_id - 1,
            GameModel { is_active: false, is_won: won, end_time: now, ..g },
        ),
    }
}

/// The record handed out when a session identifier was never assigned:
/// inactive, zeroed, owned by a fixed placeholder identity.
pub open spec fn sentinel_game_model() -> GameModel {
    GameModel {
        game_id: 0,
        player: "GAAAAAAAAAAAAAAAAAAAAAAAAAAAAAAAAAAAAAAAAAAAAAAAAAAAAWHF"@,
        moves: 0,
        start_time: 0,
        end_time: 0,
        is_won: false,
        is_active: false,
    }
}

pub proof fn lemma_count_active_bounds(s: Seq<GameModel>)
    ensures
        0 <= count_active(s) <= s.len(),
    decreases s.len(),
{
    if s.len() > 0 {
        lemma_count_active_bounds(s.drop_last());
    }
}

pub proof fn lemma_count_won_bounds(s: Seq<GameModel>)
    ensures
        0 <= count_won(s) <= s.len(),
    decreases s.len(),
{
    if s.len() > 0 {
        lemma_count_won_bounds(s.drop_last());
    }
}

/// The in-progress count is at least the active flag of any one session, and
/// can exceed the flags of the others by at most their number.
pub proof fn lemma_count_active_at(s: Seq<GameModel>, i: int)
    requires
        0 <= i < s.len(),
    ensures
        (if s[i].is_active { 1int } else { 0int }) <= count_active(s)
            <= s.len() - 1 + (if s[i].is_active { 1int } else { 0int }),
    decreases s.len(),
{
    if i == s.len() - 1 {
        lemma_count_active_bounds(s.drop_last());
    } else {
        lemma_count_active_at(s.drop_last(), i);
    }
}

/// The win count is at least the won flag of any one session, and can exceed
/// the flags of the others by at most their number.
pub proof fn lemma_count_won_at(s: Seq<GameModel>, i: int)
    requires
        0 <= i < s.len(),
    ensures
        (if s[i].is_won { 1int } else { 0int }) <= count_won(s)
            <= s.len() - 1 + (if s[i].is_won { 1int } else { 0int }),
    decreases s.len(),
{
    if i == s.len() - 1 {
        lemma_count_won_bounds(s.drop_last());
    } else {
        lemma_count_won_at(s.drop_last(), i);
    }
}

pub proof fn lemma_total_moves_nonneg(s: Seq<GameModel>)
    ensures
        0 <= total_moves_of(s),
    decreases s.len(),
{
    if s.len() > 0 {
        lemma_total_moves_nonneg(s.drop_last());
    }
}

/// No single session holds more moves than the global total.
pub proof fn lemma_total_moves_at(s: Seq<GameModel>, i: int)
    requires
        0 <= i < s.len(),
    ensures
        s[i].moves <= total_moves_of(s),
    decreases s.len(),
{
    if i == s.len() - 1 {
        lemma_total_moves_nonneg(s.drop_last());
    } else {
        lemma_total_moves_at(s.drop_last(), i);
    }
}

pub proof fn lemma_count_active_push(s: Seq<GameModel>, g: GameModel)
    ensures
        count_active(s.push(g)) == count_active(s) + (if g.is_active { 1int } else { 0int }),
{
    assert(s.push(g).drop_last() =~= s);
}

pub proof fn lemma_count_won_push(s: Seq<GameModel>, g: GameModel)
    ensures
        count_won(s.push(g)) == count_won(s) + (if g.is_won { 1int } else { 0int }),
{
    assert(s.push(g).drop_last() =~= s);
}

pub proof fn lemma_total_moves_push(s: Seq<GameModel>, g: GameModel)
    ensures
        total_moves_of(s.push(g)) == total_moves_of(s) + g.moves,
{
    assert(s.push(g).drop_last() =~= s);
}

pub proof fn lemma_count_active_update(s: Seq<GameModel>, i: int, g: GameModel)
    requires
        0 <= i < s.len(),
    ensures
        count_active(s.update(i, g)) == count_active(s) - (if s[i].is_active { 1int } else { 0int })
            + (if g.is_active { 1int } else { 0int }),
    decreases s.len(),
{
    let t = s.update(i, g);
    if i == s.len() - 1 {
        assert(t.drop_last() =~= s.drop_last());
    } else {
        assert(t.drop_last() =~= s.drop_last().update(i, g));
        assert(t.last() == s.last());
        lemma_count_active_update(s.drop_last(), i, g);
    }
}

pub proof fn lemma_count_won_update(s: Seq<GameModel>, i: int, g: GameModel)
    requires
        0 <= i < s.len(),
    ensures
        count_won(s.update(i, g)) == count_won(s) - (if s[i].is_won { 1int } else { 0int })
            + (if g.is_won { 1int } else { 0int }),
    decreases s.len(),
{
    let t = s.update(i, g);
    if i == s.len() - 1 {
        assert(t.drop_last() =~= s.drop_last());
    } else {
        assert(t.drop_last() =~= s.drop_last().update(i, g));
        assert(t.last() == s.last());
        lemma_count_won_update(s.drop_last(), i, g);
    }
}

pub proof fn lemma_total_moves_update(s: Seq<GameModel>, i: int, g: GameModel)
    requires
        0 <= i < s.len(),
    ensures
        total_moves_of(s.update(i, g)) == total_moves_of(s) - s[i].moves + g.moves,
    decreases s.len(),
{
    let t = s.update(i, g);
    if i == s.len() - 1 {
        assert(t.drop_last() =~= s.drop_last());
    } else {
        assert(t.drop_last() =~= s.drop_last().update(i, g));
        assert(t.last() == s.last());
        lemma_total_moves_update(s.drop_last(), i, g);
    }
}

/// Extending a prefix by one record extends each count by that record's
/// contribution.
pub proof fn lemma_counts_take_step(s: Seq<GameModel>, i: int)
    requires
        0 <= i < s.len(),
    ensures
        count_active(s.take(i + 1)) == count_active(s.take(i)) + (if s[i].is_active {
            1int
        } else {
            0int
        }),
        count_won(s.take(i + 1)) == count_won(s.take(i)) + (if s[i].is_won {
            1int
        } else {
            0int
        }),
        total_moves_of(s.take(i + 1)) == total_moves_of(s.take(i)) + s[i].moves,
{
    assert(s.take(i + 1).drop_last() =~= s.take(i));
    assert(s.take(i + 1).last() == s[i]);
}

/// The move total over a prefix never exceeds the move total over the whole.
pub proof fn lemma_total_moves_take_le(s: Seq<GameModel>, i: int)
    requires
        0 <= i <= s.len(),
    ensures
        total_moves_of(s.take(i)) <= total_moves_of(s),
    decreases s.len() - i,
{
    if i == s.len() {
        assert(s.take(i) =~= s);
    } else {
        lemma_counts_take_step(s, i);
        lemma_total_moves_take_le(s, i + 1);
    }
}

/// Starting a session preserves well-formedness; the new session is active
/// under the identifier it was assigned, and no other record changes.
pub proof fn lemma_start_wf(pre: ContractModel, player: Seq<char>, now: nat)
    requires
        pre.wf(),
    ensures
        start_result(pre, player, now).wf(),
        session_active(start_result(pre, player, now), next_session_id(pre)),
{
    let g = new_game_model(pre.game_count + 1, player, now);
    lemma_count_active_push(pre.games, g);
    lemma_count_won_push(pre.games, g);
    lemma_total_moves_push(pre.games, g);
}

/// Recording a move preserves well-formedness and keeps the session active.
pub proof fn lemma_move_wf(pre: ContractModel, game_id: nat)
    requires
        pre.wf(),
        session_active(pre, game_id),
    ensures
        move_result(pre, game_id).wf(),
        session_active(move_result(pre, game_id), game_id),
{
    let i = game_id - 1;
    let g = pre.games[i];
    let g2 = GameModel { moves: g.moves + 1, ..g };
    lemma_count_active_update(pre.games, i, g2);
    lemma_count_won_update(pre.games, i, g2);
    lemma_total_moves_update(pre.games, i, g2);
}

/// Completing a session preserves well-formedness and retires the session.
pub proof fn lemma_complete_wf(pre: ContractModel, game_id: nat, won: bool, now: nat)
    requires
        pre.wf(),
        session_active(pre, game_id),
    ensures
        complete_result(pre, game_id, won, now).wf(),
        !session_active(complete_result(pre, game_id, won, now), game_id),
        pre.stats.games_in_progress >= 1,
{
    let i = game_id - 1;
    let g = pre.games[i];
    let g2 = GameModel { is_active: false, is_won: won, end_time: now, ..g };
    lemma_count_active_at(pre.games, i);
    lemma_count_active_update(pre.games, i, g2);
    lemma_count_won_update(pre.games, i, g2);
    lemma_total_moves_update(pre.games, i, g2);
}

} // verus!
