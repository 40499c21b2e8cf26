//! The data types stored by the contract, with their mathematical models.
use vstd::prelude::*;

use crate::model::{GameModel, StatsModel};

verus! {

/// Aggregate statistics over all sessions ever started.
#[derive(Clone, Copy, Debug, PartialEq, Eq, Structural)]
pub struct GameStats {
    /// Sessions started so far.
    pub total_games: u64,
    /// Sessions completed with a win.
    pub games_won: u64,
    /// Sessions started and not yet completed.
    pub games_in_progress: u64,
    /// Moves recorded, summed over all sessions.
    pub total_moves: u64,
}

impl View for GameStats {
    type V = StatsModel;

    open spec fn view(&self) -> StatsModel {
        StatsModel {
            total_games: self.total_games as nat,
            games_won: self.games_won as nat,
            games_in_progress: self.games_in_progress as nat,
            total_moves: self.total_moves as nat,
        }
    }
}

/// The identity that owns a session, held as the textual form of the owner's
/// on-chain address. The contract never looks inside it: it is stored when a
/// session starts and handed back to callers, who decide what proof of
/// ownership it demands.
#[derive(Debug, PartialEq, Eq)]
pub struct Player {
    pub key: String,
}

impl View for Player {
    type V = Seq<char>;

    open spec fn view(&self) -> Seq<char> {
        self.key@
    }
}

impl Clone for Player {
    fn clone(&self) -> (res: Player)
        ensures
            res == *self,
    {
        Player { key: self.key.clone() }
    }
}

/// Storage key naming one session record by its identifier.
#[derive(Clone, Copy, Debug, PartialEq, Eq, Structural)]
pub enum GameBook {
    Game(u64),
}

/// One session record.
#[derive(Debug, PartialEq, Eq)]
pub struct Game {
    /// The identifier the session was assigned, counted from one.
    pub game_id: u64,
    /// The identity that started the session.
    pub player: Player,
    /// Moves recorded on this session so far.
    pub moves: u64,
    /// When the session was started.
    pub start_time: u64,
    /// When the session was completed, or zero while it is in progress.
    pub end_time: u64,
    /// Whether the session was completed with a win.
    pub is_won: bool,
    /// Whether the session is still in progress.
    pub is_active: bool,
}

impl View for Game {
    type V = GameModel;

    open spec fn view(&self) -> GameModel {
        GameModel {
            game_id: self.game_id as nat,
            player: self.player@,
            moves: self.moves as nat,
            start_time: self.start_time as nat,
            end_time: self.end_time as nat,
            is_won: self.is_won,
            is_active: self.is_active,
        }
    }
}

impl Clone for Game {
    fn clone(&self) -> (res: Game)
        ensures
            res == *self,
    {
        Game {
            game_id: self.game_id,
            player: self.player.clone(),
            moves: self.moves,
            start_time: self.start_time,
            end_time: self.end_time,
            is_won: self.is_won,
            is_active: self.is_active,
        }
    }
}

/// Why a state-changing call was refused; the state is left untouched.
#[derive(Clone, Copy, Debug, PartialEq, Eq, Structural)]
pub enum GameError {
    /// The session does not exist or is no longer in progress, so no move
    /// can be recorded on it.
    NotActive,
    /// The session does not exist or was already completed, so it cannot be
    /// completed again.
    AlreadyCompleted,
}

} // verus!
