use solitaire::GameError;
use solitaire::Player;
use solitaire::SolitaireContract;

fn player(key: &str) -> Player {
    Player { key: String::from(key) }
}

const SENTINEL_KEY: &str = "GAAAAAAAAAAAAAAAAAAAAAAAAAAAAAAAAAAAAAAAAAAAAAAAAAAAAWHF";

#[test]
fn test_start_and_complete_game() {
    let mut contract = SolitaireContract::new();
    let p = player("GBZXN7PIRZGNMHGA7MUUUF4GWPY5AYPV6LY4UV2GL6VJGIQRXFDNMADI");

    // Start a new game
    let game_id = contract.start_game(p, 0);
    assert_eq!(game_id, 1);

    // Get game stats
    let stats = contract.get_game_stats();
    assert_eq!(stats.total_games, 1);
    assert_eq!(stats.games_in_progress, 1);

    // Record some moves
    contract.record_move(game_id).unwrap();
    contract.record_move(game_id).unwrap();

    // Complete the game
    contract.complete_game(game_id, true, 0).unwrap();

    // Check final stats
    let final_stats = contract.get_game_stats();
    assert_eq!(final_stats.games_won, 1);
    assert_eq!(final_stats.games_in_progress, 0);
}

#[test]
fn fresh_contract_has_zeroed_stats() {
    let contract = SolitaireContract::new();
    let stats = contract.get_game_stats();
    assert_eq!(stats.total_games, 0);
    assert_eq!(stats.games_won, 0);
    assert_eq!(stats.games_in_progress, 0);
    assert_eq!(stats.total_moves, 0);
}

#[test]
fn session_ids_start_at_one_and_increase() {
    let mut contract = SolitaireContract::new();
    let id1 = contract.start_game(player("A"), 10);
    let id2 = contract.start_game(player("B"), 11);
    let id3 = contract.start_game(player("C"), 12);
    assert_eq!(id1, 1);
    assert_eq!(id2, 2);
    assert_eq!(id3, 3);
    assert!(id1 < id2 && id2 < id3);
}

#[test]
fn start_game_records_the_session() {
    let mut contract = SolitaireContract::new();
    let id = contract.start_game(player("OWNER"), 77);
    let game = contract.get_game_by_id(id);
    assert_eq!(game.game_id, 1);
    assert_eq!(game.player.key, "OWNER");
    assert_eq!(game.moves, 0);
    assert_eq!(game.start_time, 77);
    assert_eq!(game.end_time, 0);
    assert!(game.is_active);
    assert!(!game.is_won);
}

#[test]
fn moves_count_per_session_and_globally() {
    let mut contract = SolitaireContract::new();
    let id1 = contract.start_game(player("A"), 1);
    let id2 = contract.start_game(player("B"), 2);
    for _ in 0..4 {
        contract.record_move(id1).unwrap();
    }
    for _ in 0..3 {
        contract.record_move(id2).unwrap();
    }
    assert_eq!(contract.get_game_by_id(id1).moves, 4);
    assert_eq!(contract.get_game_by_id(id2).moves, 3);
    assert_eq!(contract.get_game_stats().total_moves, 7);
}

#[test]
fn completing_with_a_win_counts_it() {
    let mut contract = SolitaireContract::new();
    let id = contract.start_game(player("A"), 5);
    contract.complete_game(id, true, 9).unwrap();
    let stats = contract.get_game_stats();
    assert_eq!(stats.games_won, 1);
    assert_eq!(stats.games_in_progress, 0);
    let game = contract.get_game_by_id(id);
    assert!(!game.is_active);
    assert!(game.is_won);
    assert_eq!(game.end_time, 9);
}

#[test]
fn completing_with_a_loss_counts_no_win() {
    let mut contract = SolitaireContract::new();
    let id = contract.start_game(player("A"), 5);
    contract.complete_game(id, false, 9).unwrap();
    let stats = contract.get_game_stats();
    assert_eq!(stats.games_won, 0);
    assert_eq!(stats.games_in_progress, 0);
    assert_eq!(stats.total_games, 1);
    let game = contract.get_game_by_id(id);
    assert!(!game.is_active);
    assert!(!game.is_won);
}

#[test]
fn move_on_completed_session_is_refused_and_changes_nothing() {
    let mut contract = SolitaireContract::new();
    let id = contract.start_game(player("A"), 1);
    contract.record_move(id).unwrap();
    contract.complete_game(id, true, 2).unwrap();
    let stats_before = contract.get_game_stats();
    let game_before = contract.get_game_by_id(id);
    assert_eq!(contract.record_move(id), Err(GameError::NotActive));
    assert_eq!(contract.get_game_stats(), stats_before);
    assert_eq!(contract.get_game_by_id(id), game_before);
}

#[test]
fn completing_twice_is_refused_and_changes_nothing() {
    let mut contract = SolitaireContract::new();
    let id = contract.start_game(player("A"), 1);
    contract.complete_game(id, false, 2).unwrap();
    let stats_before = contract.get_game_stats();
    let game_before = contract.get_game_by_id(id);
    assert_eq!(contract.complete_game(id, true, 3), Err(GameError::AlreadyCompleted));
    assert_eq!(contract.get_game_stats(), stats_before);
    assert_eq!(contract.get_game_by_id(id), game_before);
}

#[test]
fn move_on_unknown_session_is_refused() {
    let mut contract = SolitaireContract::new();
    assert_eq!(contract.record_move(1), Err(GameError::NotActive));
    contract.start_game(player("A"), 1);
    assert_eq!(contract.record_move(0), Err(GameError::NotActive));
    assert_eq!(contract.record_move(2), Err(GameError::NotActive));
}

#[test]
fn completing_unknown_session_is_refused() {
    let mut contract = SolitaireContract::new();
    assert_eq!(contract.complete_game(7, true, 1), Err(GameError::AlreadyCompleted));
}

#[test]
fn unknown_id_yields_the_sentinel_record() {
    let mut contract = SolitaireContract::new();
    let sentinel = contract.get_game_by_id(42);
    assert_eq!(sentinel.game_id, 0);
    assert_eq!(sentinel.player.key, SENTINEL_KEY);
    assert_eq!(sentinel.moves, 0);
    assert_eq!(sentinel.start_time, 0);
    assert_eq!(sentinel.end_time, 0);
    assert!(!sentinel.is_won);
    assert!(!sentinel.is_active);

    // The same sentinel comes back for id zero, even once sessions exist.
    contract.start_game(player("A"), 1);
    let zero = contract.get_game_by_id(0);
    assert_eq!(zero.game_id, 0);
    assert!(!zero.is_active);
}
