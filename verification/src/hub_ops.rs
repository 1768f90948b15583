//! The hub's handlers for client-submitted actions, and the idempotent
//! dispatch that runs them at most once per fingerprint.
//!
//! Every handler is a pure transition: the store's view afterwards equals
//! a spec function of the view before, and the handler's outbox holds
//! exactly the messages that the protocol sends.  A constraint violation
//! (wrong status, full room, duplicate membership, expired challenge)
//! never raises: the action is silently dropped, as the platform's
//! best-effort policy demands.

use vstd::prelude::*;

use crate::hub::{
    existing_board, global_key, global_key_spec, profile_or_fresh, station_inv, station_wf,
    stored_profile, GameStationState, StationView,
};
use crate::leaderboard::board_updated;
use crate::progression::{
    bump_u64, bumped64, profile_wf, record_snake_score, record_snakeladders_result,
    record_tictactoe_result, record_uno_result, snake_score_recorded, track_result_recorded,
    grid_result_recorded, uno_result_recorded,
};
use crate::hub::{generate_operation_id, op_fingerprint};
use crate::hub_rooms::{move_made, room_closed, room_created, room_joined, room_left};
use crate::hub_social::{
    challenge_accepted, challenge_created, challenge_declined, friend_removed,
    friend_request_accepted, friend_request_rejected, friend_request_sent, tournament_created,
    tournament_joined, tournament_match_advanced, tournament_started,
};
use crate::types::{GameMode, GameType, Operation, OutboundMessage, OutboundView, ProfileView};

verus! {

/// The store after one arcade score is submitted: a practice score is
/// dropped; otherwise the profile records it, the game's global
/// leaderboard takes it, and a game is counted.
pub open spec fn snake_score_submitted(
    v: StationView,
    owner: Seq<char>,
    score: u32,
    mode: GameMode,
    ts: u64,
) -> StationView {
    if mode == GameMode::Practice {
        v
    } else {
        let v1 = stored_profile(v, owner, ts);
        let p1 = snake_score_recorded(profile_or_fresh(v, owner, ts), score);
        let key = global_key_spec(GameType::Snake);
        StationView {
            users: v1.users.insert(owner, p1),
            leaderboards: v1.leaderboards.insert(
                key,
                board_updated(existing_board(v1, key), owner, p1.username, score),
            ),
            total_games: bumped64(v1.total_games),
            ..v1
        }
    }
}

/// The store after one grid-game result is submitted: the profile records
/// the outcome, the win count goes to the global grid leaderboard, and a
/// game is counted; practice results are dropped.
pub open spec fn tictactoe_result_submitted(
    v: StationView,
    owner: Seq<char>,
    won: bool,
    mode: GameMode,
    ts: u64,
) -> StationView {
    if mode == GameMode::Practice {
        v
    } else {
        let v1 = stored_profile(v, owner, ts);
        let p1 = grid_result_recorded(profile_or_fresh(v, owner, ts), won);
        let key = global_key_spec(GameType::TicTacToe);
        StationView {
            users: v1.users.insert(owner, p1),
            leaderboards: v1.leaderboards.insert(
                key,
                board_updated(
                    existing_board(v1, key),
                    owner,
                    p1.username,
                    p1.tictactoe_stats.wins,
                ),
            ),
            total_games: bumped64(v1.total_games),
            ..v1
        }
    }
}

/// The store after one track-game result is submitted; the submitted path
/// awards 100 or 20 experience.
pub open spec fn snakeladders_result_submitted(
    v: StationView,
    owner: Seq<char>,
    won: bool,
    mode: GameMode,
    ts: u64,
) -> StationView {
    if mode == GameMode::Practice {
        v
    } else {
        let v1 = stored_profile(v, owner, ts);
        let p1 = track_result_recorded(profile_or_fresh(v, owner, ts), won, 100, 20);
        let key = global_key_spec(GameType::SnakeLadders);
        StationView {
            users: v1.users.insert(owner, p1),
            leaderboards: v1.leaderboards.insert(
                key,
                board_updated(
                    existing_board(v1, key),
                    owner,
                    p1.username,
                    p1.snakeladders_stats.wins,
                ),
            ),
            total_games: bumped64(v1.total_games),
            ..v1
        }
    }
}

/// The store after one card-game result is submitted.
pub open spec fn uno_result_submitted(
    v: StationView,
    owner: Seq<char>,
    won: bool,
    mode: GameMode,
    ts: u64,
) -> StationView {
    if mode == GameMode::Practice {
        v
    } else {
        let v1 = stored_profile(v, owner, ts);
        let p1 = uno_result_recorded(profile_or_fresh(v, owner, ts), won);
        let key = global_key_spec(GameType::Uno);
        StationView {
            users: v1.users.insert(owner, p1),
            leaderboards: v1.leaderboards.insert(
                key,
                board_updated(existing_board(v1, key), owner, p1.username, p1.uno_stats.wins),
            ),
            total_games: bumped64(v1.total_games),
            ..v1
        }
    }
}

/// The store after a profile update: name and avatar replaced, the
/// profile created first if the address is unseen.
pub open spec fn profile_updated(
    v: StationView,
    owner: Seq<char>,
    username: Seq<char>,
    avatar_id: u8,
    ts: u64,
) -> StationView {
    let v1 = stored_profile(v, owner, ts);
    let p = profile_or_fresh(v, owner, ts);
    let p1 = ProfileView { username: username, avatar_id: avatar_id, ..p };
    StationView { users: v1.users.insert(owner, p1), ..v1 }
}

impl GameStationState {
    /// Records one submitted arcade score, per `snake_score_submitted`.
    pub fn handle_submit_snake_score(
        &mut self,
        owner: String,
        score: u32,
        game_mode: GameMode,
        timestamp: u64,
    )
        requires
            station_wf(old(self)),
        ensures
            station_wf(final(self)),
            final(self)@ == snake_score_submitted(old(self)@, owner@, score, game_mode, timestamp),
    {
        if matches!(game_mode, GameMode::Practice) {
            return ;
        }
        let mut profile = self.get_or_create_profile(&owner, timestamp);
        record_snake_score(&mut profile, score);
        self.users.insert(owner.clone(), profile.clone());
        proof {
            assert(station_inv(self@));
        }
        let key = global_key(GameType::Snake);
        self.update_leaderboard(&key, owner.as_str(), profile.username.as_str(), score);
        let ghost mid = self@;
        proof {
            assert(station_inv(mid));
        }
        self.total_games = bump_u64(self.total_games);
        proof {
            assert(self@.users == mid.users);
            assert(self@.leaderboards == mid.leaderboards);
            assert(self@.rooms == mid.rooms);
            assert(station_inv(self@)) by {
                assert forall|k: Seq<char>| self@.users.contains_key(k) implies profile_wf(
                    #[trigger] self@.users[k],
                ) by {}
                assert forall|k: Seq<char>|
                    self@.leaderboards.contains_key(k) implies crate::leaderboard::board_wf(
                    #[trigger] self@.leaderboards[k],
                ) by {}
                assert forall|k: Seq<char>|
                    self@.rooms.contains_key(k) implies crate::hub::room_inv(
                    #[trigger] self@.rooms[k],
                ) by {}
            }
        }
    }

    /// Records one submitted grid-game result, per
    /// `tictactoe_result_submitted`.
    pub fn handle_submit_tictactoe_result(
        &mut self,
        owner: String,
        won: bool,
        game_mode: GameMode,
        timestamp: u64,
    )
        requires
            station_wf(old(self)),
        ensures
            station_wf(final(self)),
            final(self)@ == tictactoe_result_submitted(
                old(self)@,
                owner@,
                won,
                game_mode,
                timestamp,
            ),
    {
        if matches!(game_mode, GameMode::Practice) {
            return ;
        }
        let mut profile = self.get_or_create_profile(&owner, timestamp);
        record_tictactoe_result(&mut profile, won);
        self.users.insert(owner.clone(), profile.clone());
        proof {
            assert(station_inv(self@));
        }
        let key = global_key(GameType::TicTacToe);
        let score = profile.tictactoe_stats.wins;
        self.update_leaderboard(&key, owner.as_str(), profile.username.as_str(), score);
        let ghost mid = self@;
        proof {
            assert(station_inv(mid));
        }
        self.total_games = bump_u64(self.total_games);
        proof {
            assert(self@.users == mid.users);
            assert(self@.leaderboards == mid.leaderboards);
            assert(self@.rooms == mid.rooms);
            assert(station_inv(self@)) by {
                assert forall|k: Seq<char>| self@.users.contains_key(k) implies profile_wf(
                    #[trigger] self@.users[k],
                ) by {}
                assert forall|k: Seq<char>|
                    self@.leaderboards.contains_key(k) implies crate::leaderboard::board_wf(
                    #[trigger] self@.leaderboards[k],
                ) by {}
                assert forall|k: Seq<char>|
                    self@.rooms.contains_key(k) implies crate::hub::room_inv(
                    #[trigger] self@.rooms[k],
                ) by {}
            }
        }
    }

    /// Records one submitted track-game result, per
    /// `snakeladders_result_submitted`.
    pub fn handle_submit_snakeladders_result(
        &mut self,
        owner: String,
        won: bool,
        game_mode: GameMode,
        timestamp: u64,
    )
        requires
            station_wf(old(self)),
        ensures
            station_wf(final(self)),
            final(self)@ == snakeladders_result_submitted(
                old(self)@,
                owner@,
                won,
                game_mode,
                timestamp,
            ),
    {
        if matches!(game_mode, GameMode::Practice) {
            return ;
        }
        let mut profile = self.get_or_create_profile(&owner, timestamp);
        record_snakeladders_result(&mut profile, won, 100, 20);
        self.users.insert(owner.clone(), profile.clone());
        proof {
            assert(station_inv(self@));
        }
        let key = global_key(GameType::SnakeLadders);
        let score = profile.snakeladders_stats.wins;
        self.update_leaderboard(&key, owner.as_str(), profile.username.as_str(), score);
        let ghost mid = self@;
        proof {
            assert(station_inv(mid));
        }
        self.total_games = bump_u64(self.total_games);
        proof {
            assert(self@.users == mid.users);
            assert(self@.leaderboards == mid.leaderboards);
            assert(self@.rooms == mid.rooms);
            assert(station_inv(self@)) by {
                assert forall|k: Seq<char>| self@.users.contains_key(k) implies profile_wf(
                    #[trigger] self@.users[k],
                ) by {}
                assert forall|k: Seq<char>|
                    self@.leaderboards.contains_key(k) implies crate::leaderboard::board_wf(
                    #[trigger] self@.leaderboards[k],
                ) by {}
                assert forall|k: Seq<char>|
                    self@.rooms.contains_key(k) implies crate::hub::room_inv(
                    #[trigger] self@.rooms[k],
                ) by {}
            }
        }
    }

    /// Records one submitted card-game result, per `uno_result_submitted`.
    pub fn handle_submit_uno_result(
        &mut self,
        owner: String,
        won: bool,
        game_mode: GameMode,
        timestamp: u64,
    )
        requires
            station_wf(old(self)),
        ensures
            station_wf(final(self)),
            final(self)@ == uno_result_submitted(old(self)@, owner@, won, game_mode, timestamp),
    {
        if matches!(game_mode, GameMode::Practice) {
            return ;
        }
        let mut profile = self.get_or_create_profile(&owner, timestamp);
        record_uno_result(&mut profile, won);
        self.users.insert(owner.clone(), profile.clone());
        proof {
            assert(station_inv(self@));
        }
        let key = global_key(GameType::Uno);
        let score = profile.uno_stats.wins;
        self.update_leaderboard(&key, owner.as_str(), profile.username.as_str(), score);
        let ghost mid = self@;
        proof {
            assert(station_inv(mid));
        }
        self.total_games = bump_u64(self.total_games);
        proof {
            assert(self@.users == mid.users);
            assert(self@.leaderboards == mid.leaderboards);
            assert(self@.rooms == mid.rooms);
            assert(station_inv(self@)) by {
                assert forall|k: Seq<char>| self@.users.contains_key(k) implies profile_wf(
                    #[trigger] self@.users[k],
                ) by {}
                assert forall|k: Seq<char>|
                    self@.leaderboards.contains_key(k) implies crate::leaderboard::board_wf(
                    #[trigger] self@.leaderboards[k],
                ) by {}
                assert forall|k: Seq<char>|
                    self@.rooms.contains_key(k) implies crate::hub::room_inv(
                    #[trigger] self@.rooms[k],
                ) by {}
            }
        }
    }

    /// Replaces a profile's name and avatar, per `profile_updated`.
    pub fn handle_update_profile(
        &mut self,
        owner: String,
        username: String,
        avatar_id: u8,
        timestamp: u64,
    )
        requires
            station_wf(old(self)),
        ensures
            station_wf(final(self)),
            final(self)@ == profile_updated(old(self)@, owner@, username@, avatar_id, timestamp),
    {
        let mut profile = self.get_or_create_profile(&owner, timestamp);
        profile.username = username;
        profile.avatar_id = avatar_id;
        self.users.insert(owner.clone(), profile);
        proof {
            assert(station_inv(self@));
        }
    }
}


/// Where one dispatched action takes the store, and what it sends: the
/// handler matching the action's variant, with an empty outbox for every
/// hub-local action.
pub open spec fn spec_dispatch(
    v: StationView,
    op: &Operation,
    owner: Seq<char>,
    ts: u64,
    fresh: Seq<char>,
) -> (StationView, Seq<OutboundView>) {
    match op {
        Operation::SubmitSnakeScore { score, game_mode } => (
            snake_score_submitted(v, owner, *score, *game_mode, ts),
            Seq::empty(),
        ),
        Operation::SubmitTicTacToeResult { won, game_mode } => (
            tictactoe_result_submitted(v, owner, *won, *game_mode, ts),
            Seq::empty(),
        ),
        Operation::SubmitSnakeLaddersResult { won, game_mode } => (
            snakeladders_result_submitted(v, owner, *won, *game_mode, ts),
            Seq::empty(),
        ),
        Operation::SubmitUnoResult { won, game_mode } => (
            uno_result_submitted(v, owner, *won, *game_mode, ts),
            Seq::empty(),
        ),
        Operation::UpdateProfile { username, avatar_id } => (
            profile_updated(v, owner, username@, *avatar_id, ts),
            Seq::empty(),
        ),
        Operation::CreateRoom { game_type, max_players, entry_fee, game_mode } => room_created(
            v,
            owner,
            *game_type,
            *max_players,
            *entry_fee,
            *game_mode,
            ts,
            fresh,
        ),
        Operation::JoinRoom { room_id } => room_joined(v, owner, room_id@),
        Operation::LeaveRoom { room_id } => (room_left(v, owner, room_id@), Seq::empty()),
        Operation::MakeMove { room_id, move_data } => move_made(
            v,
            owner,
            room_id@,
            move_data@,
            ts,
        ),
        Operation::CloseRoom { room_id } => (room_closed(v, room_id@), Seq::empty()),
        Operation::CreateTournament { name, game_type, max_players } => (
            tournament_created(v, owner, name@, *game_type, *max_players, ts),
            Seq::empty(),
        ),
        Operation::JoinTournament { tournament_id } => (
            tournament_joined(v, owner, tournament_id@),
            Seq::empty(),
        ),
        Operation::StartTournament { tournament_id } => (
            tournament_started(v, tournament_id@),
            Seq::empty(),
        ),
        Operation::AdvanceTournament { tournament_id, match_id, winner } => (
            tournament_match_advanced(v, tournament_id@, match_id@, winner@),
            Seq::empty(),
        ),
        Operation::SendFriendRequest { to_address } => (
            friend_request_sent(v, owner, to_address@, ts),
            Seq::empty(),
        ),
        Operation::AcceptFriendRequest { from_address } => (
            friend_request_accepted(v, owner, from_address@, ts),
            Seq::empty(),
        ),
        Operation::RejectFriendRequest { from_address } => (
            friend_request_rejected(v, owner, from_address@),
            Seq::empty(),
        ),
        Operation::RemoveFriend { friend_address } => (
            friend_removed(v, owner, friend_address@),
            Seq::empty(),
        ),
        Operation::CreateChallenge { opponent, game_type, wager } => (
            challenge_created(v, owner, opponent@, *game_type, *wager, ts),
            Seq::empty(),
        ),
        Operation::AcceptChallenge { challenge_id } => (
            challenge_accepted(v, owner, challenge_id@, ts),
            Seq::empty(),
        ),
        Operation::DeclineChallenge { challenge_id } => (
            challenge_declined(v, challenge_id@),
            Seq::empty(),
        ),
    }
}

/// One idempotent dispatch: a fingerprint already on the ledger makes
/// the action a silent no-op; otherwise the handler runs and the
/// fingerprint is recorded.
pub open spec fn spec_execute(
    v: StationView,
    op: &Operation,
    owner: Seq<char>,
    ts: u64,
    fresh: Seq<char>,
) -> (StationView, Seq<OutboundView>) {
    let fp = op_fingerprint(op, owner, ts);
    if v.processed_operations.contains_key(fp) && v.processed_operations[fp] {
        (v, Seq::empty())
    } else {
        let stepped = spec_dispatch(v, op, owner, ts, fresh);
        (
            StationView {
                processed_operations: stepped.0.processed_operations.insert(fp, true),
                ..stepped.0
            },
            stepped.1,
        )
    }
}

/// Dispatching the identical fingerprinted action twice leaves the store
/// exactly as one dispatch left it, and sends nothing the second time,
/// whatever shard the second dispatch was handed.
pub proof fn lemma_dispatch_idempotent(
    v: StationView,
    op: &Operation,
    owner: Seq<char>,
    ts: u64,
    fresh1: Seq<char>,
    fresh2: Seq<char>,
)
    ensures
        ({
            let first = spec_execute(v, op, owner, ts, fresh1);
            spec_execute(first.0, op, owner, ts, fresh2) == (
                first.0,
                Seq::<OutboundView>::empty(),
            )
        }),
{
    let fp = op_fingerprint(op, owner, ts);
    let first = spec_execute(v, op, owner, ts, fresh1);
    assert(first.0.processed_operations.contains_key(fp) && first.0.processed_operations[fp]);
}

impl GameStationState {
    /// Runs one client-submitted action at most once, per `spec_execute`:
    /// the fingerprint of the action's content, its submitter and its
    /// submission time suppresses a re-delivery, and the matching handler
    /// runs otherwise.  `fresh_chain` names the shard the environment
    /// allocated in case the action opens a room; other actions ignore it.
    pub fn execute_operation(
        &mut self,
        operation: Operation,
        submitter: String,
        timestamp: u64,
        fresh_chain: String,
    ) -> (out: Vec<OutboundMessage>)
        requires
            station_wf(old(self)),
        ensures
            station_wf(final(self)),
            (final(self)@, out.deep_view()) == spec_execute(
                old(self)@,
                &operation,
                submitter@,
                timestamp,
                fresh_chain@,
            ),
    {
        let op_id = generate_operation_id(&operation, submitter.as_str(), timestamp);
        if self.is_operation_processed(&op_id) {
            let out: Vec<OutboundMessage> = Vec::new();
            proof {
                assert(out.deep_view() =~= Seq::<OutboundView>::empty());
            }
            return out;
        }
        let ghost v0 = self@;
        let out: Vec<OutboundMessage> = match operation {
            Operation::SubmitSnakeScore { score, game_mode } => {
                self.handle_submit_snake_score(submitter, score, game_mode, timestamp);
                Vec::new()
            },
            Operation::SubmitTicTacToeResult { won, game_mode } => {
                self.handle_submit_tictactoe_result(submitter, won, game_mode, timestamp);
                Vec::new()
            },
            Operation::SubmitSnakeLaddersResult { won, game_mode } => {
                self.handle_submit_snakeladders_result(submitter, won, game_mode, timestamp);
                Vec::new()
            },
            Operation::SubmitUnoResult { won, game_mode } => {
                self.handle_submit_uno_result(submitter, won, game_mode, timestamp);
                Vec::new()
            },
            Operation::UpdateProfile { username, avatar_id } => {
                self.handle_update_profile(submitter, username, avatar_id, timestamp);
                Vec::new()
            },
            Operation::CreateRoom { game_type, max_players, entry_fee, game_mode } => {
                self.handle_create_room(
                    submitter,
                    game_type,
                    max_players,
                    entry_fee,
                    game_mode,
                    timestamp,
                    fresh_chain,
                )
            },
            Operation::JoinRoom { room_id } => {
                self.handle_join_room(submitter, room_id, timestamp)
            },
            Operation::LeaveRoom { room_id } => {
                self.handle_leave_room(submitter, room_id);
                Vec::new()
            },
            Operation::MakeMove { room_id, move_data } => {
                self.handle_make_move(submitter, room_id, move_data, timestamp)
            },
            Operation::CloseRoom { room_id } => {
                self.handle_close_room(room_id);
                Vec::new()
            },
            Operation::CreateTournament { name, game_type, max_players } => {
                self.handle_create_tournament(submitter, name, game_type, max_players, timestamp);
                Vec::new()
            },
            Operation::JoinTournament { tournament_id } => {
                self.handle_join_tournament(submitter, tournament_id);
                Vec::new()
            },
            Operation::StartTournament { tournament_id } => {
                self.handle_start_tournament(tournament_id);
                Vec::new()
            },
            Operation::AdvanceTournament { tournament_id, match_id, winner } => {
                self.handle_advance_tournament(tournament_id, match_id, winner);
                Vec::new()
            },
            Operation::SendFriendRequest { to_address } => {
                self.handle_send_friend_request(submitter, to_address, timestamp);
                Vec::new()
            },
            Operation::AcceptFriendRequest { from_address } => {
                self.handle_accept_friend_request(submitter, from_address, timestamp);
                Vec::new()
            },
            Operation::RejectFriendRequest { from_address } => {
                self.handle_reject_friend_request(submitter, from_address);
                Vec::new()
            },
            Operation::RemoveFriend { friend_address } => {
                self.handle_remove_friend(submitter, friend_address);
                Vec::new()
            },
            Operation::CreateChallenge { opponent, game_type, wager } => {
                self.handle_create_challenge(submitter, opponent, game_type, wager, timestamp);
                Vec::new()
            },
            Operation::AcceptChallenge { challenge_id } => {
                self.handle_accept_challenge(submitter, challenge_id, timestamp);
                Vec::new()
            },
            Operation::DeclineChallenge { challenge_id } => {
                self.handle_decline_challenge(challenge_id);
                Vec::new()
            },
        };
        proof {
            let stepped = spec_dispatch(v0, &operation, submitter@, timestamp, fresh_chain@);
            assert(out.deep_view() =~= stepped.1);
            assert(self@ == stepped.0);
        }
        self.mark_operation_processed(op_id);
        out
    }
}

} // verus!
