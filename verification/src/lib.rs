//! Verified bookkeeping for solitaire game sessions.
//!
//! The library keeps an explicit contract state: a counter of assigned
//! session identifiers, aggregate statistics, and one record per session.
//! Every state-changing operation is specified by a transition function on
//! a mathematical model of that state, and proved to follow it.
pub mod contract;
pub mod laws;
pub mod model;
mod types;

pub use contract::SolitaireContract;

pub use types::Game;
pub use types::GameBook;
pub use types::GameError;
pub use types::GameStats;
pub use types::Player;
