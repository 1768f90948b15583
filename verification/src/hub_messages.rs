//! The hub's handlers for messages arriving from shards: mirror updates
//! for the legacy hub-resident protocol, and the completion report that
//! retires a room and pays out progression and leaderboard updates.

use vstd::prelude::*;

use crate::hub::{
    existing_board, game_key, game_key_spec, profile_or_fresh, station_inv, station_wf,
    stored_profile, GameStationState, StationView,
};
use crate::hub_rooms::{mirror_state_after, room_joined, without_text};
use crate::leaderboard::board_updated;
use crate::progression::{
    bump_u64, bumped64, grid_result_recorded, profile_wf, record_snake_score,
    record_snakeladders_result, record_tictactoe_result, record_uno_result, snake_score_recorded,
    track_result_recorded, uno_result_recorded,
};
use crate::text::{contains_string, str_eq};
use crate::types::{GameType, Message, RoomStatus, RoomView};

verus! {

/// The store after the legacy move message: the mirror's board advances
/// and the move time is stamped; win detection is left to the move
/// action's own path.
pub open spec fn mirror_moved(
    v: StationView,
    rid: Seq<char>,
    player: Seq<char>,
    move_data: Seq<char>,
    ts: u64,
) -> StationView {
    if v.rooms.contains_key(rid) {
        let room = v.rooms[rid];
        StationView {
            rooms: v.rooms.insert(
                rid,
                RoomView {
                    current_state: mirror_state_after(room, player, move_data),
                    last_move_time: ts,
                    ..room
                },
            ),
            ..v
        }
    } else {
        v
    }
}

/// The store after the legacy end message: the mirror finishes with the
/// named winner and leaves the active index.
pub open spec fn mirror_ended(
    v: StationView,
    rid: Seq<char>,
    winner: Option<Seq<char>>,
) -> StationView {
    if v.rooms.contains_key(rid) {
        StationView {
            rooms: v.rooms.insert(
                rid,
                RoomView { status: RoomStatus::Finished, winner: winner, ..v.rooms[rid] },
            ),
            active_room_ids: without_text(v.active_room_ids, rid),
            ..v
        }
    } else {
        v
    }
}

/// One player's line of a completion report: the profile records the
/// outcome for the reported game, and the game's leaderboard takes the
/// reported score.
pub open spec fn stats_applied_one(
    v: StationView,
    pid: Seq<char>,
    score: u32,
    winner: Option<Seq<char>>,
    gt: GameType,
    ts: u64,
) -> StationView {
    let v1 = stored_profile(v, pid, ts);
    let p0 = profile_or_fresh(v, pid, ts);
    let won = winner == Some(pid);
    let p1 = match gt {
        GameType::TicTacToe => grid_result_recorded(p0, won),
        GameType::Snake => snake_score_recorded(p0, score),
        GameType::SnakeLadders => track_result_recorded(p0, won, 40, 10),
        GameType::Uno => uno_result_recorded(p0, won),
    };
    let key = game_key_spec(gt);
    StationView {
        users: v1.users.insert(pid, p1),
        leaderboards: v1.leaderboards.insert(
            key,
            board_updated(existing_board(v1, key), pid, p1.username, score),
        ),
        ..v1
    }
}

/// A completion report's lines applied in order.
pub open spec fn stats_folded(
    v: StationView,
    stats: Seq<(Seq<char>, u32)>,
    winner: Option<Seq<char>>,
    gt: GameType,
    ts: u64,
) -> StationView
    decreases stats.len(),
{
    if stats.len() == 0 {
        v
    } else {
        stats_applied_one(
            stats_folded(v, stats.drop_last(), winner, gt, ts),
            stats.last().0,
            stats.last().1,
            winner,
            gt,
            ts,
        )
    }
}

/// The store after a completion report: every reported player is paid
/// out, the shard mapping and the active entry go, and a game is counted.
pub open spec fn stats_reported(
    v: StationView,
    rid: Seq<char>,
    winner: Option<Seq<char>>,
    stats: Seq<(Seq<char>, u32)>,
    gt: GameType,
    ts: u64,
) -> StationView {
    let v1 = stats_folded(v, stats, winner, gt, ts);
    StationView {
        room_chains: v1.room_chains.remove(rid),
        active_room_ids: without_text(v1.active_room_ids, rid),
        total_games: bumped64(v1.total_games),
        ..v1
    }
}

/// The store after one inbound message; messages meant for shards, and
/// purely informational ones, change nothing here.
pub open spec fn hub_message_applied(v: StationView, msg: &Message, ts: u64) -> StationView {
    match msg {
        Message::PlayerJoinedRoom { room_id, player } => room_joined(v, player@, room_id@).0,
        Message::GameMove { room_id, player, move_data } => mirror_moved(
            v,
            room_id@,
            player@,
            move_data@,
            ts,
        ),
        Message::GameEnded { room_id, winner } => mirror_ended(
            v,
            room_id@,
            match winner {
                Some(w) => Some(w@),
                None => None,
            },
        ),
        Message::GameEndedWithStats { room_id, winner, player_stats, game_type, .. } => {
            stats_reported(
                v,
                room_id@,
                match winner {
                    Some(w) => Some(w@),
                    None => None,
                },
                player_stats.deep_view(),
                *game_type,
                ts,
            )
        },
        _ => v,
    }
}

impl GameStationState {
    /// Applies one line of a completion report, per `stats_applied_one`.
    fn apply_player_stats(
        &mut self,
        pid: &String,
        score: u32,
        winner: &Option<String>,
        game_type: GameType,
        timestamp: u64,
    )
        requires
            station_wf(old(self)),
        ensures
            station_wf(final(self)),
            final(self)@ == stats_applied_one(
                old(self)@,
                pid@,
                score,
                match winner {
                    Some(w) => Some(w@),
                    None => None,
                },
                game_type,
                timestamp,
            ),
    {
        let mut profile = self.get_or_create_profile(pid, timestamp);
        let won = match winner {
            Some(w) => str_eq(w.as_str(), pid.as_str()),
            None => false,
        };
        match game_type {
            GameType::TicTacToe => record_tictactoe_result(&mut profile, won),
            GameType::Snake => record_snake_score(&mut profile, score),
            GameType::SnakeLadders => record_snakeladders_result(&mut profile, won, 40, 10),
            GameType::Uno => record_uno_result(&mut profile, won),
        }
        self.users.insert(pid.clone(), profile.clone());
        proof {
            assert(station_inv(self@));
        }
        let key = game_key(game_type);
        self.update_leaderboard(&key, pid.as_str(), profile.username.as_str(), score);
    }

    /// Applies one inbound message, per `hub_message_applied`.
    pub fn execute_message(&mut self, message: Message, timestamp: u64)
        requires
            station_wf(old(self)),
        ensures
            station_wf(final(self)),
            final(self)@ == hub_message_applied(old(self)@, &message, timestamp),
    {
        match message {
            Message::PlayerJoinedRoom { room_id, player } => {
                match self.rooms.get(&room_id) {
                    Some(r0) => {
                        let mut room = r0.clone();
                        if matches!(room.status, RoomStatus::Waiting) && !contains_string(
                            &room.players,
                            player.as_str(),
                        ) && room.players.len() < room.max_players as usize {
                            let ghost pre_players = room.players.deep_view();
                            room.players.push(player.clone());
                            proof {
                                assert(room.players.deep_view() =~= pre_players.push(player@));
                            }
                            if room.players.len() >= room.max_players as usize {
                                room.status = RoomStatus::InProgress;
                            }
                            self.rooms.insert(room_id.clone(), room);
                        }
                    },
                    None => {},
                }
            },
            Message::GameMove { room_id, player, move_data } => {
                match self.rooms.get(&room_id) {
                    Some(r0) => {
                        let mut room = r0.clone();
                        room.last_move_time = timestamp;
                        let new_state = match room.game_type {
                            GameType::TicTacToe => crate::grid::process_tictactoe_move(
                                room.current_state.as_str(),
                                move_data.as_str(),
                                player.as_str(),
                                &room.players,
                            ),
                            GameType::SnakeLadders => crate::track::process_snakeladders_move(
                                room.current_state.as_str(),
                                move_data.as_str(),
                                player.as_str(),
                            ),
                            _ => room.current_state.clone(),
                        };
                        room.current_state = new_state;
                        self.rooms.insert(room_id, room);
                    },
                    None => {},
                }
            },
            Message::GameEnded { room_id, winner } => {
                match self.rooms.get(&room_id) {
                    Some(r0) => {
                        let mut room = r0.clone();
                        room.status = RoomStatus::Finished;
                        room.winner = winner;
                        self.rooms.insert(room_id.clone(), room);
                        self.remove_from_active_rooms(room_id.as_str());
                    },
                    None => {},
                }
            },
            Message::GameEndedWithStats {
                room_id,
                winner,
                player_stats,
                game_type,
                duration_seconds: _,
            } => {
                let ghost v0 = self@;
                let ghost wv = match &winner {
                    Some(w) => Some(w@),
                    None => None::<Seq<char>>,
                };
                let n = player_stats.len();
                let mut i: usize = 0;
                proof {
                    assert(player_stats.deep_view().take(0) =~= Seq::<(Seq<char>, u32)>::empty());
                }
                while i < n
                    invariant
                        n == player_stats.len(),
                        i <= n,
                        station_wf(self),
                        wv == (match &winner {
                            Some(w) => Some(w@),
                            None => None::<Seq<char>>,
                        }),
                        self@ == stats_folded(
                            v0,
                            player_stats.deep_view().take(i as int),
                            wv,
                            game_type,
                            timestamp,
                        ),
                    decreases n - i,
                {
                    proof {
                        let sv = player_stats.deep_view();
                        assert(sv.take(i + 1).drop_last() =~= sv.take(i as int));
                        assert(sv.take(i + 1).last() == sv[i as int]);
                        assert(sv[i as int].0 == player_stats@[i as int].0@);
                        assert(sv[i as int].1 == player_stats@[i as int].1);
                    }
                    let pid = player_stats[i].0.clone();
                    let score = player_stats[i].1;
                    self.apply_player_stats(&pid, score, &winner, game_type, timestamp);
                    i = i + 1;
                }
                proof {
                    assert(player_stats.deep_view().take(n as int) =~= player_stats.deep_view());
                }
                self.room_chains.remove(&room_id);
                self.remove_from_active_rooms(room_id.as_str());
                let ghost mid = self@;
                proof {
                    assert(station_inv(mid));
                }
                self.total_games = bump_u64(self.total_games);
                proof {
                    assert(self@.users == mid.users);
                    assert(self@.leaderboards == mid.leaderboards);
                    assert(self@.rooms == mid.rooms);
                    assert(station_inv(self@)) by {
                        assert forall|k: Seq<char>| self@.users.contains_key(k) implies profile_wf(
                            #[trigger] self@.users[k],
                        ) by {}
                        assert forall|k: Seq<char>|
                            self@.leaderboards.contains_key(
                                k,
                            ) implies crate::leaderboard::board_wf(
                            #[trigger] self@.leaderboards[k],
                        ) by {}
                        assert forall|k: Seq<char>|
                            self@.rooms.contains_key(k) implies crate::hub::room_inv(
                            #[trigger] self@.rooms[k],
                        ) by {}
                    }
                }
            },
            _ => {},
        }
    }
}


/// The legacy message paths keep the lifecycle one-way too: a relayed
/// move leaves the status alone, and the end message only ever finishes.
pub proof fn lemma_legacy_status_monotonic(
    v: StationView,
    rid: Seq<char>,
    player: Seq<char>,
    move_data: Seq<char>,
    winner: Option<Seq<char>>,
    ts: u64,
    k: Seq<char>,
)
    requires
        v.rooms.contains_key(k),
    ensures
        mirror_moved(v, rid, player, move_data, ts).rooms.contains_key(k)
            ==> crate::hub_rooms::status_rank(
            mirror_moved(v, rid, player, move_data, ts).rooms[k].status,
        ) >= crate::hub_rooms::status_rank(v.rooms[k].status),
        mirror_ended(v, rid, winner).rooms.contains_key(k) ==> crate::hub_rooms::status_rank(
            mirror_ended(v, rid, winner).rooms[k].status,
        ) >= crate::hub_rooms::status_rank(v.rooms[k].status),
{
}

} // verus!
