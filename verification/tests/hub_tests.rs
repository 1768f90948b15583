use game_station::hub::GameStationState;
use game_station::types::{ChallengeStatus, GameMode, GameType, Message, Operation, RoomStatus};

fn hub() -> GameStationState {
    GameStationState::instantiate("hub-chain".to_string())
}

fn dispatch(
    hub: &mut GameStationState,
    op: Operation,
    who: &str,
    ts: u64,
) -> Vec<game_station::types::OutboundMessage> {
    hub.execute_operation(op, who.to_string(), ts, "unused-shard".to_string())
}

#[test]
fn fresh_hub_is_empty() {
    let h = hub();
    assert_eq!(h.total_games(), 0);
    assert_eq!(h.total_players(), 0);
    assert_eq!(h.active_rooms().len(), 0);
    assert_eq!(h.active_tournaments().len(), 0);
    let stats = h.global_stats();
    assert_eq!(stats.active_rooms, 0);
    assert_eq!(stats.active_tournaments, 0);
}

#[test]
fn submitted_score_builds_a_profile() {
    let mut h = hub();
    dispatch(
        &mut h,
        Operation::SubmitSnakeScore { score: 150, game_mode: GameMode::Solo },
        "dave",
        5000,
    );
    let p = h.user_profile(&"dave".to_string()).unwrap();
    assert_eq!(p.snake_stats.high_score, 150);
    assert_eq!(p.snake_stats.games_played, 1);
    assert_eq!(p.xp, 15);
    assert_eq!(h.total_players(), 1);
    assert_eq!(h.total_games(), 1);
}

#[test]
fn practice_results_are_dropped() {
    let mut h = hub();
    dispatch(
        &mut h,
        Operation::SubmitUnoResult { won: true, game_mode: GameMode::Practice },
        "dave",
        5000,
    );
    assert!(h.user_profile(&"dave".to_string()).is_none());
    assert_eq!(h.total_games(), 0);
}

#[test]
fn identical_dispatch_is_a_silent_no_op() {
    let mut h = hub();
    let op = || Operation::SubmitSnakeScore { score: 10, game_mode: GameMode::Solo };
    dispatch(&mut h, op(), "dave", 77);
    dispatch(&mut h, op(), "dave", 77);
    let p = h.user_profile(&"dave".to_string()).unwrap();
    assert_eq!(p.snake_stats.games_played, 1);
    assert_eq!(h.total_games(), 1);
    // A later submission of the same content is a new action.
    dispatch(&mut h, op(), "dave", 78);
    let p = h.user_profile(&"dave".to_string()).unwrap();
    assert_eq!(p.snake_stats.games_played, 2);
    assert_eq!(h.total_games(), 2);
}

#[test]
fn create_room_registers_mirror_and_shard() {
    let mut h = hub();
    let out = h.execute_operation(
        Operation::CreateRoom {
            game_type: GameType::TicTacToe,
            max_players: 2,
            entry_fee: 0,
            game_mode: GameMode::Multiplayer,
        },
        "alice".to_string(),
        1000,
        "shard-1".to_string(),
    );
    let rid = "room-tictactoe-0".to_string();
    let room = h.room(&rid).unwrap();
    assert_eq!(room.creator, "alice");
    assert_eq!(room.players, vec!["alice".to_string()]);
    assert!(matches!(room.status, RoomStatus::Waiting));
    assert_eq!(h.room_chain_id(&rid).unwrap(), "shard-1");
    assert_eq!(h.active_rooms().len(), 1);
    assert_eq!(out.len(), 1);
    assert_eq!(out[0].destination, "shard-1");
    match &out[0].message {
        Message::InitializeRoom { room_id, creator, max_players, creator_chain, .. } => {
            assert_eq!(room_id, "room-tictactoe-0");
            assert_eq!(creator, "alice");
            assert_eq!(*max_players, 2);
            assert_eq!(creator_chain, "hub-chain");
        }
        other => panic!("unexpected message {:?}", other),
    }
}

#[test]
fn join_updates_mirror_and_tells_the_shard() {
    let mut h = hub();
    h.execute_operation(
        Operation::CreateRoom {
            game_type: GameType::TicTacToe,
            max_players: 2,
            entry_fee: 0,
            game_mode: GameMode::Multiplayer,
        },
        "alice".to_string(),
        1000,
        "shard-1".to_string(),
    );
    let rid = "room-tictactoe-0".to_string();
    let out = dispatch(&mut h, Operation::JoinRoom { room_id: rid.clone() }, "bob", 2000);
    let room = h.room(&rid).unwrap();
    assert_eq!(room.players.len(), 2);
    assert!(matches!(room.status, RoomStatus::InProgress));
    assert_eq!(out.len(), 1);
    assert!(matches!(&out[0].message, Message::PlayerJoiningRoom { .. }));
    // A third joiner is silently refused by the mirror but still relayed.
    let out = dispatch(&mut h, Operation::JoinRoom { room_id: rid.clone() }, "carol", 3000);
    let room = h.room(&rid).unwrap();
    assert_eq!(room.players.len(), 2);
    assert_eq!(out.len(), 1);
}

#[test]
fn leave_empties_and_removes_a_waiting_room() {
    let mut h = hub();
    h.execute_operation(
        Operation::CreateRoom {
            game_type: GameType::Uno,
            max_players: 4,
            entry_fee: 0,
            game_mode: GameMode::Multiplayer,
        },
        "alice".to_string(),
        1000,
        "shard-1".to_string(),
    );
    let rid = "room-uno-0".to_string();
    dispatch(&mut h, Operation::LeaveRoom { room_id: rid.clone() }, "alice", 2000);
    assert!(h.room(&rid).is_none());
    assert_eq!(h.active_rooms().len(), 0);
}

#[test]
fn close_room_finishes_it() {
    let mut h = hub();
    h.execute_operation(
        Operation::CreateRoom {
            game_type: GameType::Uno,
            max_players: 4,
            entry_fee: 0,
            game_mode: GameMode::Multiplayer,
        },
        "alice".to_string(),
        1000,
        "shard-1".to_string(),
    );
    let rid = "room-uno-0".to_string();
    dispatch(&mut h, Operation::CloseRoom { room_id: rid.clone() }, "alice", 2000);
    let room = h.room(&rid).unwrap();
    assert!(matches!(room.status, RoomStatus::Finished));
    assert_eq!(h.active_rooms().len(), 0);
}

#[test]
fn moves_are_forwarded_to_a_mapped_shard() {
    let mut h = hub();
    h.execute_operation(
        Operation::CreateRoom {
            game_type: GameType::TicTacToe,
            max_players: 2,
            entry_fee: 0,
            game_mode: GameMode::Multiplayer,
        },
        "alice".to_string(),
        1000,
        "shard-1".to_string(),
    );
    let rid = "room-tictactoe-0".to_string();
    let out = dispatch(
        &mut h,
        Operation::MakeMove { room_id: rid.clone(), move_data: "0,0".to_string() },
        "alice",
        2000,
    );
    assert_eq!(out.len(), 1);
    assert_eq!(out[0].destination, "shard-1");
    assert!(matches!(&out[0].message, Message::ProcessMove { .. }));
    // The mirror's board stays untouched while the shard is authoritative.
    assert_eq!(h.room(&rid).unwrap().current_state, "");
}

#[test]
fn tournament_lifecycle_through_the_hub() {
    let mut h = hub();
    dispatch(
        &mut h,
        Operation::CreateTournament {
            name: "cup".to_string(),
            game_type: GameType::TicTacToe,
            max_players: 4,
        },
        "alice",
        1,
    );
    let tid = "tournament-0".to_string();
    for (who, ts) in [("a", 2), ("b", 3), ("c", 4), ("d", 5)] {
        dispatch(&mut h, Operation::JoinTournament { tournament_id: tid.clone() }, who, ts);
    }
    // Capacity reached: a fifth registration is refused.
    dispatch(&mut h, Operation::JoinTournament { tournament_id: tid.clone() }, "e", 6);
    let t = h.tournament(&tid).unwrap();
    assert_eq!(t.participants, vec!["a", "b", "c", "d"]);
    dispatch(&mut h, Operation::StartTournament { tournament_id: tid.clone() }, "alice", 7);
    let t = h.tournament(&tid).unwrap();
    assert!(matches!(t.status, game_station::types::TournamentStatus::InProgress));
    assert_eq!(t.current_round, 1);
    assert_eq!(t.brackets.len(), 2);
    assert_eq!(t.brackets[0].player1, "a");
    assert_eq!(t.brackets[0].player2, "b");
    dispatch(
        &mut h,
        Operation::AdvanceTournament {
            tournament_id: tid.clone(),
            match_id: "a-b".to_string(),
            winner: "a".to_string(),
        },
        "alice",
        8,
    );
    let t = h.tournament(&tid).unwrap();
    assert_eq!(t.brackets.len(), 1);
    dispatch(
        &mut h,
        Operation::AdvanceTournament {
            tournament_id: tid.clone(),
            match_id: "c-d".to_string(),
            winner: "c".to_string(),
        },
        "alice",
        9,
    );
    let t = h.tournament(&tid).unwrap();
    assert!(matches!(t.status, game_station::types::TournamentStatus::Completed));
}

#[test]
fn friend_request_accept_links_both_sides() {
    let mut h = hub();
    dispatch(&mut h, Operation::SendFriendRequest { to_address: "bob".to_string() }, "alice", 1);
    let reqs = h.friend_requests(&"bob".to_string());
    assert_eq!(reqs.len(), 1);
    assert_eq!(reqs[0].from_address, "alice");
    // A duplicate request is dropped.
    dispatch(&mut h, Operation::SendFriendRequest { to_address: "bob".to_string() }, "alice", 2);
    assert_eq!(h.friend_requests(&"bob".to_string()).len(), 1);
    dispatch(
        &mut h,
        Operation::AcceptFriendRequest { from_address: "alice".to_string() },
        "bob",
        3,
    );
    assert_eq!(h.friend_requests(&"bob".to_string()).len(), 0);
    let bobs = h.friends(&"bob".to_string());
    assert_eq!(bobs.len(), 1);
    assert_eq!(bobs[0].address, "alice");
    let alices = h.friends(&"alice".to_string());
    assert_eq!(alices.len(), 1);
    assert_eq!(alices[0].address, "bob");
}

#[test]
fn rejecting_only_removes_the_request() {
    let mut h = hub();
    dispatch(&mut h, Operation::SendFriendRequest { to_address: "bob".to_string() }, "alice", 1);
    dispatch(
        &mut h,
        Operation::RejectFriendRequest { from_address: "alice".to_string() },
        "bob",
        2,
    );
    assert_eq!(h.friend_requests(&"bob".to_string()).len(), 0);
    assert_eq!(h.friends(&"bob".to_string()).len(), 0);
    assert_eq!(h.friends(&"alice".to_string()).len(), 0);
}

#[test]
fn removing_a_friend_cuts_both_sides() {
    let mut h = hub();
    dispatch(&mut h, Operation::SendFriendRequest { to_address: "bob".to_string() }, "alice", 1);
    dispatch(
        &mut h,
        Operation::AcceptFriendRequest { from_address: "alice".to_string() },
        "bob",
        2,
    );
    dispatch(&mut h, Operation::RemoveFriend { friend_address: "bob".to_string() }, "alice", 3);
    assert_eq!(h.friends(&"alice".to_string()).len(), 0);
    assert_eq!(h.friends(&"bob".to_string()).len(), 0);
}

#[test]
fn challenge_expires_after_a_day() {
    let mut h = hub();
    dispatch(
        &mut h,
        Operation::CreateChallenge {
            opponent: "bob".to_string(),
            game_type: GameType::Uno,
            wager: 5,
        },
        "alice",
        1000,
    );
    let cid = "challenge-0".to_string();
    let c = h.challenge(&cid).unwrap();
    assert!(matches!(c.status, ChallengeStatus::Pending));
    assert_eq!(c.expires_at, 1000 + 86_400_000_000);
    // Still pending, but past the deadline: acceptance is refused.
    dispatch(
        &mut h,
        Operation::AcceptChallenge { challenge_id: cid.clone() },
        "bob",
        1000 + 86_400_000_000 + 1,
    );
    let c = h.challenge(&cid).unwrap();
    assert!(matches!(c.status, ChallengeStatus::Pending));
    // In time it goes through.
    dispatch(&mut h, Operation::AcceptChallenge { challenge_id: cid.clone() }, "bob", 2000);
    let c = h.challenge(&cid).unwrap();
    assert!(matches!(c.status, ChallengeStatus::Accepted));
}

#[test]
fn only_the_named_opponent_accepts() {
    let mut h = hub();
    dispatch(
        &mut h,
        Operation::CreateChallenge {
            opponent: "bob".to_string(),
            game_type: GameType::Uno,
            wager: 5,
        },
        "alice",
        1000,
    );
    let cid = "challenge-0".to_string();
    dispatch(&mut h, Operation::AcceptChallenge { challenge_id: cid.clone() }, "carol", 2000);
    assert!(matches!(h.challenge(&cid).unwrap().status, ChallengeStatus::Pending));
}

#[test]
fn declining_a_pending_challenge() {
    let mut h = hub();
    dispatch(
        &mut h,
        Operation::CreateChallenge {
            opponent: "bob".to_string(),
            game_type: GameType::Uno,
            wager: 5,
        },
        "alice",
        1000,
    );
    let cid = "challenge-0".to_string();
    dispatch(&mut h, Operation::DeclineChallenge { challenge_id: cid.clone() }, "bob", 2000);
    assert!(matches!(h.challenge(&cid).unwrap().status, ChallengeStatus::Declined));
}

#[test]
fn update_profile_sets_name_and_avatar() {
    let mut h = hub();
    dispatch(
        &mut h,
        Operation::UpdateProfile { username: "Neo".to_string(), avatar_id: 7 },
        "alice",
        1,
    );
    let p = h.user_profile(&"alice".to_string()).unwrap();
    assert_eq!(p.username, "Neo");
    assert_eq!(p.avatar_id, 7);
    assert_eq!(h.total_players(), 1);
}

#[test]
fn win_count_feeds_the_global_grid_leaderboard() {
    let mut h = hub();
    dispatch(
        &mut h,
        Operation::SubmitTicTacToeResult { won: true, game_mode: GameMode::Multiplayer },
        "alice",
        1,
    );
    dispatch(
        &mut h,
        Operation::SubmitTicTacToeResult { won: false, game_mode: GameMode::Multiplayer },
        "bob",
        2,
    );
    let p = h.user_profile(&"alice".to_string()).unwrap();
    assert_eq!(p.tictactoe_stats.wins, 1);
    assert_eq!(p.xp, 50);
    let q = h.user_profile(&"bob".to_string()).unwrap();
    assert_eq!(q.tictactoe_stats.losses, 1);
    assert_eq!(q.xp, 10);
}
