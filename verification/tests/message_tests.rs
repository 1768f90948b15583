//! The hub's own message handlers: the legacy hub-resident room paths
//! and the silent handling of messages that fit nothing.

use game_station::hub::GameStationState;
use game_station::types::{GameMode, GameType, Message, Operation, RoomStatus};

fn hub_with_room(game_type: GameType, max_players: u8) -> (GameStationState, String) {
    let mut h = GameStationState::instantiate("hub-chain".to_string());
    h.execute_operation(
        Operation::CreateRoom { game_type, max_players, entry_fee: 0, game_mode: GameMode::Multiplayer },
        "alice".to_string(),
        1000,
        "shard-1".to_string(),
    );
    let rid = match game_type {
        GameType::TicTacToe => "room-tictactoe-0",
        GameType::SnakeLadders => "room-snakeladders-0",
        GameType::Snake => "room-snake-0",
        GameType::Uno => "room-uno-0",
    };
    (h, rid.to_string())
}

#[test]
fn joined_message_seats_on_the_mirror() {
    let (mut h, rid) = hub_with_room(GameType::TicTacToe, 2);
    h.execute_message(
        Message::PlayerJoinedRoom { room_id: rid.clone(), player: "bob".to_string() },
        2000,
    );
    let room = h.room(&rid).unwrap();
    assert_eq!(room.players.len(), 2);
    assert!(matches!(room.status, RoomStatus::InProgress));
    // Full now: another seat notice changes nothing.
    h.execute_message(
        Message::PlayerJoinedRoom { room_id: rid.clone(), player: "carol".to_string() },
        3000,
    );
    assert_eq!(h.room(&rid).unwrap().players.len(), 2);
}

#[test]
fn legacy_move_message_advances_the_mirror_board() {
    let (mut h, rid) = hub_with_room(GameType::TicTacToe, 2);
    h.execute_message(
        Message::GameMove {
            room_id: rid.clone(),
            player: "alice".to_string(),
            move_data: "0,0".to_string(),
        },
        4000,
    );
    let room = h.room(&rid).unwrap();
    assert_eq!(room.current_state, "X--\n---\n---");
    assert_eq!(room.last_move_time, 4000);
}

#[test]
fn legacy_end_message_finishes_the_mirror() {
    let (mut h, rid) = hub_with_room(GameType::Uno, 4);
    h.execute_message(
        Message::GameEnded { room_id: rid.clone(), winner: Some("alice".to_string()) },
        5000,
    );
    let room = h.room(&rid).unwrap();
    assert!(matches!(room.status, RoomStatus::Finished));
    assert_eq!(room.winner.as_deref(), Some("alice"));
    assert_eq!(h.active_rooms().len(), 0);
}

#[test]
fn stats_report_for_a_track_game_awards_40_and_10() {
    let (mut h, rid) = hub_with_room(GameType::SnakeLadders, 2);
    h.execute_message(
        Message::GameEndedWithStats {
            room_id: rid.clone(),
            winner: Some("alice".to_string()),
            player_stats: vec![("alice".to_string(), 1), ("bob".to_string(), 0)],
            game_type: GameType::SnakeLadders,
            duration_seconds: 12,
        },
        6000,
    );
    let alice = h.user_profile(&"alice".to_string()).unwrap();
    assert_eq!(alice.snakeladders_stats.wins, 1);
    assert_eq!(alice.xp, 40);
    let bob = h.user_profile(&"bob".to_string()).unwrap();
    assert_eq!(bob.snakeladders_stats.losses, 1);
    assert_eq!(bob.xp, 10);
    assert_eq!(h.total_games(), 1);
    assert!(h.room_chain_id(&rid).is_none());
}

#[test]
fn messages_for_unknown_rooms_change_nothing() {
    let mut h = GameStationState::instantiate("hub-chain".to_string());
    h.execute_message(
        Message::PlayerJoinedRoom { room_id: "nowhere".to_string(), player: "bob".to_string() },
        1000,
    );
    h.execute_message(
        Message::GameEnded { room_id: "nowhere".to_string(), winner: None },
        2000,
    );
    assert_eq!(h.active_rooms().len(), 0);
    assert_eq!(h.total_games(), 0);
}

#[test]
fn actions_on_unknown_records_are_silently_dropped() {
    let mut h = GameStationState::instantiate("hub-chain".to_string());
    h.execute_operation(
        Operation::JoinRoom { room_id: "nowhere".to_string() },
        "bob".to_string(),
        1,
        "unused".to_string(),
    );
    h.execute_operation(
        Operation::AcceptChallenge { challenge_id: "challenge-9".to_string() },
        "bob".to_string(),
        2,
        "unused".to_string(),
    );
    h.execute_operation(
        Operation::StartTournament { tournament_id: "tournament-9".to_string() },
        "bob".to_string(),
        3,
        "unused".to_string(),
    );
    assert_eq!(h.total_players(), 0);
    assert_eq!(h.active_rooms().len(), 0);
    assert_eq!(h.active_tournaments().len(), 0);
}

#[test]
fn informational_messages_are_no_ops() {
    let mut h = GameStationState::instantiate("hub-chain".to_string());
    h.execute_message(
        Message::RoomCreated {
            room_id: "r".to_string(),
            creator: "alice".to_string(),
            game_type: GameType::Uno,
        },
        1,
    );
    h.execute_message(Message::TournamentStarted { tournament_id: "t".to_string() }, 2);
    h.execute_message(
        Message::RoomChainReady {
            room_id: "r".to_string(),
            creator: "alice".to_string(),
            game_type: GameType::Uno,
            room_chain_id: "shard-1".to_string(),
        },
        3,
    );
    assert_eq!(h.total_players(), 0);
    assert_eq!(h.total_games(), 0);
}
