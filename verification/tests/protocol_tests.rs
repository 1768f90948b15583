//! The full hub-and-shard exchange, with this harness playing the
//! message-delivery substrate.

use game_station::hub::GameStationState;
use game_station::room::RoomChainState;
use game_station::types::{GameMode, GameType, Message, Operation, RoomStatus};

#[test]
fn shard_initializes_and_confirms() {
    let mut shard = RoomChainState::instantiate("shard-1".to_string());
    let out = shard.execute_message(
        Message::InitializeRoom {
            room_id: "room-tictactoe-0".to_string(),
            game_type: GameType::TicTacToe,
            creator: "alice".to_string(),
            max_players: 2,
            creator_chain: "hub-chain".to_string(),
        },
        1000,
    );
    assert_eq!(shard.room_id, "room-tictactoe-0");
    assert_eq!(shard.players, vec!["alice".to_string()]);
    assert!(matches!(shard.status, RoomStatus::Waiting));
    assert_eq!(shard.created_at, 1000);
    assert_eq!(out.len(), 1);
    assert_eq!(out[0].destination, "hub-chain");
    match &out[0].message {
        Message::RoomChainReady { room_id, creator, room_chain_id, .. } => {
            assert_eq!(room_id, "room-tictactoe-0");
            assert_eq!(creator, "alice");
            assert_eq!(room_chain_id, "shard-1");
        }
        other => panic!("unexpected message {:?}", other),
    }
}

#[test]
fn shard_seats_to_capacity_and_not_beyond() {
    let mut shard = RoomChainState::instantiate("shard-1".to_string());
    shard.execute_message(
        Message::InitializeRoom {
            room_id: "r".to_string(),
            game_type: GameType::TicTacToe,
            creator: "alice".to_string(),
            max_players: 2,
            creator_chain: "hub-chain".to_string(),
        },
        1000,
    );
    let out = shard.execute_message(
        Message::PlayerJoiningRoom { room_id: "r".to_string(), player: "bob".to_string() },
        2000,
    );
    assert_eq!(out.len(), 0);
    assert_eq!(shard.players.len(), 2);
    // The second distinct player starts the match at once.
    assert!(matches!(shard.status, RoomStatus::InProgress));
    // A third seat request and a duplicate are both refused.
    shard.execute_message(
        Message::PlayerJoiningRoom { room_id: "r".to_string(), player: "carol".to_string() },
        3000,
    );
    shard.execute_message(
        Message::PlayerJoiningRoom { room_id: "r".to_string(), player: "bob".to_string() },
        3000,
    );
    assert_eq!(shard.players.len(), 2);
}

#[test]
fn wrong_room_id_is_dropped() {
    let mut shard = RoomChainState::instantiate("shard-1".to_string());
    shard.execute_message(
        Message::InitializeRoom {
            room_id: "r".to_string(),
            game_type: GameType::TicTacToe,
            creator: "alice".to_string(),
            max_players: 2,
            creator_chain: "hub-chain".to_string(),
        },
        1000,
    );
    shard.execute_message(
        Message::PlayerJoiningRoom { room_id: "other".to_string(), player: "bob".to_string() },
        2000,
    );
    assert_eq!(shard.players.len(), 1);
}

#[test]
fn moves_from_outsiders_or_while_waiting_are_dropped() {
    let mut shard = RoomChainState::instantiate("shard-1".to_string());
    shard.execute_message(
        Message::InitializeRoom {
            room_id: "r".to_string(),
            game_type: GameType::TicTacToe,
            creator: "alice".to_string(),
            max_players: 2,
            creator_chain: "hub-chain".to_string(),
        },
        1000,
    );
    // Still waiting: even the creator cannot move.
    shard.execute_message(
        Message::ProcessMove {
            room_id: "r".to_string(),
            player: "alice".to_string(),
            move_data: "0,0".to_string(),
        },
        2000,
    );
    assert_eq!(shard.current_state, "");
    shard.execute_message(
        Message::PlayerJoiningRoom { room_id: "r".to_string(), player: "bob".to_string() },
        3000,
    );
    // A non-member's move is dropped.
    shard.execute_message(
        Message::ProcessMove {
            room_id: "r".to_string(),
            player: "mallory".to_string(),
            move_data: "0,0".to_string(),
        },
        4000,
    );
    assert_eq!(shard.current_state, "");
    assert_eq!(shard.move_counter, 0);
}

#[test]
fn full_match_reports_stats_and_retires_the_room() {
    let mut hub = GameStationState::instantiate("hub-chain".to_string());
    let mut outbox = hub.execute_operation(
        Operation::CreateRoom {
            game_type: GameType::TicTacToe,
            max_players: 2,
            entry_fee: 0,
            game_mode: GameMode::Multiplayer,
        },
        "alice".to_string(),
        1_000_000,
        "shard-1".to_string(),
    );
    let rid = "room-tictactoe-0".to_string();
    let mut shard = RoomChainState::instantiate("shard-1".to_string());

    // Deliver the initialization and route the confirmation back.
    assert_eq!(outbox.len(), 1);
    let init = outbox.remove(0);
    assert_eq!(init.destination, "shard-1");
    let mut replies = shard.execute_message(init.message, 2_000_000);
    assert_eq!(replies.len(), 1);
    let ready = replies.remove(0);
    assert_eq!(ready.destination, "hub-chain");
    hub.execute_message(ready.message, 2_500_000);

    // Bob joins: the mirror seats him and the shard accepts him.
    let mut outbox = hub.execute_operation(
        Operation::JoinRoom { room_id: rid.clone() },
        "bob".to_string(),
        3_000_000,
        "unused".to_string(),
    );
    assert_eq!(outbox.len(), 1);
    shard.execute_message(outbox.remove(0).message, 3_500_000);
    assert!(matches!(shard.status, RoomStatus::InProgress));

    // Play a match to a first-row win for the creator.
    let mut ts = 4_000_000u64;
    let mut final_report = None;
    for (who, mv) in [
        ("alice", "0,0"),
        ("bob", "0,1"),
        ("alice", "1,0"),
        ("bob", "1,1"),
        ("alice", "2,0"),
    ] {
        let mut outbox = hub.execute_operation(
            Operation::MakeMove { room_id: rid.clone(), move_data: mv.to_string() },
            who.to_string(),
            ts,
            "unused".to_string(),
        );
        assert_eq!(outbox.len(), 1);
        let mut replies = shard.execute_message(outbox.remove(0).message, ts);
        if !replies.is_empty() {
            final_report = Some(replies.remove(0));
        }
        ts += 1_000_000;
    }
    assert_eq!(shard.current_state, "XXX\nOO-\n---");
    assert!(matches!(shard.status, RoomStatus::Finished));
    assert_eq!(shard.move_counter, 5);

    // The completion report reaches the hub.
    let report = final_report.expect("the winning move must produce a report");
    assert_eq!(report.destination, "hub-chain");
    match &report.message {
        Message::GameEndedWithStats { winner, player_stats, duration_seconds, .. } => {
            assert_eq!(winner.as_deref(), Some("alice"));
            assert_eq!(
                player_stats,
                &vec![("alice".to_string(), 1u32), ("bob".to_string(), 0u32)]
            );
            // Created at 2_000_000 and won at 8_000_000 microseconds.
            assert_eq!(*duration_seconds, 6);
        }
        other => panic!("unexpected message {:?}", other),
    }
    hub.execute_message(report.message, 9_000_000);

    // Profiles, leaderboard and directory all settle.
    let alice = hub.user_profile(&"alice".to_string()).unwrap();
    assert_eq!(alice.tictactoe_stats.wins, 1);
    assert_eq!(alice.xp, 50);
    let bob = hub.user_profile(&"bob".to_string()).unwrap();
    assert_eq!(bob.tictactoe_stats.losses, 1);
    assert_eq!(bob.xp, 10);
    let board = hub.leaderboard(GameType::TicTacToe, None);
    assert_eq!(board.len(), 2);
    assert_eq!(board[0].player_id, "alice");
    assert_eq!(board[0].score, 1);
    assert_eq!(board[0].rank, 1);
    assert_eq!(board[1].player_id, "bob");
    assert!(hub.room_chain_id(&rid).is_none());
    assert_eq!(hub.total_games(), 1);
    assert_eq!(hub.total_players(), 2);
    assert_eq!(hub.active_rooms().len(), 0);
}

#[test]
fn mirror_and_shard_can_diverge_on_a_join() {
    // The mirror update and the shard's acceptance are deliberately not
    // transactional: a seat the shard refuses can still show on the
    // mirror.  Here the shard already seated carol directly, so bob gets
    // the mirror's last seat while the shard turns him away.
    let mut hub = GameStationState::instantiate("hub-chain".to_string());
    let mut outbox = hub.execute_operation(
        Operation::CreateRoom {
            game_type: GameType::TicTacToe,
            max_players: 2,
            entry_fee: 0,
            game_mode: GameMode::Multiplayer,
        },
        "alice".to_string(),
        1000,
        "shard-1".to_string(),
    );
    let rid = "room-tictactoe-0".to_string();
    let mut shard = RoomChainState::instantiate("shard-1".to_string());
    shard.execute_message(outbox.remove(0).message, 1000);
    shard.execute_message(
        Message::PlayerJoiningRoom { room_id: rid.clone(), player: "carol".to_string() },
        1500,
    );
    // Bob's join through the hub: the mirror seats him...
    let mut outbox = hub.execute_operation(
        Operation::JoinRoom { room_id: rid.clone() },
        "bob".to_string(),
        2000,
        "unused".to_string(),
    );
    shard.execute_message(outbox.remove(0).message, 2500);
    let mirror = hub.room(&rid).unwrap();
    assert!(mirror.players.contains(&"bob".to_string()));
    // ...while the shard, already full with carol, refused him.
    assert!(!shard.players.contains(&"bob".to_string()));
    assert!(shard.players.contains(&"carol".to_string()));
}
