use game_station::hub::GameStationState;
use game_station::types::{GameMode, GameType, Operation};

#[test]
fn leaderboard_limit_cuts_the_listing() {
    let mut h = GameStationState::instantiate("hub-chain".to_string());
    for i in 0..15u32 {
        h.execute_operation(
            Operation::SubmitTicTacToeResult { won: true, game_mode: GameMode::Solo },
            format!("player{}", i),
            i as u64,
            "unused".to_string(),
        );
    }
    // Submitted results feed the per-game global board, which the
    // leaderboard query does not read; seed the queried board directly
    // through a shard completion report instead.
    h.execute_message(
        game_station::types::Message::GameEndedWithStats {
            room_id: "room-x".to_string(),
            winner: Some("player0".to_string()),
            player_stats: (0..15u32).map(|i| (format!("player{}", i), 100 - i)).collect(),
            game_type: GameType::TicTacToe,
            duration_seconds: 1,
        },
        1_000,
    );
    assert_eq!(h.leaderboard(GameType::TicTacToe, None).len(), 10);
    assert_eq!(h.leaderboard(GameType::TicTacToe, Some(3)).len(), 3);
    assert_eq!(h.leaderboard(GameType::TicTacToe, Some(50)).len(), 15);
    assert_eq!(h.leaderboard(GameType::Uno, None).len(), 0);
}

#[test]
fn unseen_addresses_resolve_to_nothing() {
    let h = GameStationState::instantiate("hub-chain".to_string());
    assert!(h.user_profile(&"ghost".to_string()).is_none());
    assert!(h.snake_high_score(&"ghost".to_string()).is_none());
    assert!(h.challenge(&"challenge-0".to_string()).is_none());
    assert!(h.room_chain_id(&"room-x".to_string()).is_none());
    assert_eq!(h.friends(&"ghost".to_string()).len(), 0);
    assert_eq!(h.friend_requests(&"ghost".to_string()).len(), 0);
    assert_eq!(h.challenges(&"ghost".to_string()).len(), 0);
}

#[test]
fn global_stats_track_the_directory() {
    let mut h = GameStationState::instantiate("hub-chain".to_string());
    h.execute_operation(
        Operation::CreateRoom {
            game_type: GameType::Uno,
            max_players: 4,
            entry_fee: 0,
            game_mode: GameMode::Multiplayer,
        },
        "alice".to_string(),
        1,
        "shard-1".to_string(),
    );
    h.execute_operation(
        Operation::CreateTournament {
            name: "cup".to_string(),
            game_type: GameType::Uno,
            max_players: 8,
        },
        "alice".to_string(),
        2,
        "unused".to_string(),
    );
    let stats = h.global_stats();
    assert_eq!(stats.active_rooms, 1);
    assert_eq!(stats.active_tournaments, 1);
    h.execute_operation(
        Operation::CloseRoom { room_id: "room-uno-0".to_string() },
        "alice".to_string(),
        3,
        "unused".to_string(),
    );
    assert_eq!(h.global_stats().active_rooms, 0);
}
