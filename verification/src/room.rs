//! The room shard: the authoritative state of one match, isolated from
//! the hub and driven purely by inbound messages.
//!
//! A shard comes up empty, learns its room from the hub's initialization
//! message and confirms readiness; it then seats joiners under the real
//! capacity check, applies moves through the rule engine, and on a win
//! reports winner, per-player scores and duration back to the hub.

use vstd::prelude::*;

use crate::grid::{check_tictactoe_win, grid_apply, grid_win, process_tictactoe_move};
use crate::progression::{bump_u64, bumped64};
use crate::text::{contains_string, str_eq};
use crate::types::{
    GameType, Message, MessageView, OutboundMessage, OutboundView, RoomStatus,
};

verus! {

/// The authoritative state of one match.
pub struct RoomChainState {
    pub self_chain_id: String,
    pub room_id: String,
    pub game_type: GameType,
    pub players: Vec<String>,
    pub max_players: u8,
    pub status: RoomStatus,
    pub current_state: String,
    pub moves: Vec<String>,
    pub created_at: u64,
    pub creator_chain: String,
    pub move_counter: u64,
}

/// Mathematical view of a shard.
pub struct RoomChainView {
    pub self_chain_id: Seq<char>,
    pub room_id: Seq<char>,
    pub game_type: GameType,
    pub players: Seq<Seq<char>>,
    pub max_players: u8,
    pub status: RoomStatus,
    pub current_state: Seq<char>,
    pub moves: Seq<Seq<char>>,
    pub created_at: u64,
    pub creator_chain: Seq<char>,
    pub move_counter: u64,
}

impl View for RoomChainState {
    type V = RoomChainView;

    open spec fn view(&self) -> RoomChainView {
        RoomChainView {
            self_chain_id: self.self_chain_id@,
            room_id: self.room_id@,
            game_type: self.game_type,
            players: self.players.deep_view(),
            max_players: self.max_players,
            status: self.status,
            current_state: self.current_state@,
            moves: self.moves.deep_view(),
            created_at: self.created_at,
            creator_chain: self.creator_chain@,
            move_counter: self.move_counter,
        }
    }
}

/// The state a shard starts in, before initialization: an anonymous
/// waiting grid-game room for two.
pub open spec fn fresh_shard(self_chain: Seq<char>) -> RoomChainView {
    RoomChainView {
        self_chain_id: self_chain,
        room_id: Seq::empty(),
        game_type: GameType::TicTacToe,
        players: Seq::empty(),
        max_players: 2,
        status: RoomStatus::Waiting,
        current_state: Seq::empty(),
        moves: Seq::empty(),
        created_at: 0,
        creator_chain: Seq::empty(),
        move_counter: 0,
    }
}

/// The shard and its reply after initialization: the room's identity and
/// configuration land, the creator takes the first seat, and readiness
/// goes back to the hub.
pub open spec fn shard_initialized(
    rv: RoomChainView,
    room_id: Seq<char>,
    gt: GameType,
    creator: Seq<char>,
    max_players: u8,
    creator_chain: Seq<char>,
    ts: u64,
) -> (RoomChainView, Seq<OutboundView>) {
    let rv1 = RoomChainView {
        room_id: room_id,
        game_type: gt,
        players: seq![creator],
        max_players: max_players,
        status: RoomStatus::Waiting,
        current_state: Seq::empty(),
        created_at: ts,
        creator_chain: creator_chain,
        move_counter: 0,
        ..rv
    };
    let msg = MessageView::RoomChainReady {
        room_id: room_id,
        creator: creator,
        game_type: gt,
        room_chain_id: rv.self_chain_id,
    };
    (rv1, seq![OutboundView { destination: creator_chain, message: msg }])
}

/// The shard after a seat request: only for this room, only while
/// waiting, only a new player, only under capacity; the last seat starts
/// the match.
pub open spec fn shard_player_joined(
    rv: RoomChainView,
    room_id: Seq<char>,
    player: Seq<char>,
) -> RoomChainView {
    if rv.room_id != room_id {
        rv
    } else {
        if rv.status == RoomStatus::Waiting && !rv.players.contains(player) && rv.players.len()
            < rv.max_players as int {
            let ps = rv.players.push(player);
            RoomChainView {
                players: ps,
                status: if ps.len() >= rv.max_players as int {
                    RoomStatus::InProgress
                } else {
                    RoomStatus::Waiting
                },
                ..rv
            }
        } else {
            rv
        }
    }
}

/// The per-player score vector a win produces: 1 for the winner, 0 for
/// everyone else.
pub open spec fn win_scores(players: Seq<Seq<char>>, winner: Seq<char>) -> Seq<(Seq<char>, u32)> {
    players.map_values(
        |p: Seq<char>|
            (
                p,
                if p == winner {
                    1u32
                } else {
                    0u32
                },
            ),
    )
}

/// The shard and its report after a move: a move from a seated player in
/// a running match with the right room id advances the board and joins
/// the log; a grid-game win finishes the match and reports the winner,
/// every player's score and the match duration to the hub.
pub open spec fn shard_move_processed(
    rv: RoomChainView,
    room_id: Seq<char>,
    player: Seq<char>,
    move_data: Seq<char>,
    ts: u64,
) -> (RoomChainView, Seq<OutboundView>) {
    if rv.room_id != room_id || rv.status != RoomStatus::InProgress || !rv.players.contains(
        player,
    ) {
        (rv, Seq::empty())
    } else {
        let state1 = if rv.game_type == GameType::TicTacToe {
            grid_apply(rv.current_state, move_data, player, rv.players)
        } else {
            rv.current_state
        };
        let won = rv.game_type == GameType::TicTacToe && grid_win(state1);
        let rv1 = RoomChainView {
            current_state: state1,
            moves: rv.moves.push(move_data),
            move_counter: bumped64(rv.move_counter),
            status: if won {
                RoomStatus::Finished
            } else {
                rv.status
            },
            ..rv
        };
        if won {
            let msg = MessageView::GameEndedWithStats {
                room_id: room_id,
                winner: Some(player),
                player_stats: win_scores(rv.players, player),
                game_type: rv.game_type,
                duration_seconds: ((ts - rv.created_at) / 1000000) as u64,
            };
            (rv1, seq![OutboundView { destination: rv.creator_chain, message: msg }])
        } else {
            (rv1, Seq::empty())
        }
    }
}

/// The shard and its replies after one inbound message; messages meant
/// for the hub change nothing here.
pub open spec fn shard_message_applied(rv: RoomChainView, msg: &Message, ts: u64) -> (
    RoomChainView,
    Seq<OutboundView>,
) {
    match msg {
        Message::InitializeRoom { room_id, game_type, creator, max_players, creator_chain } => {
            shard_initialized(
                rv,
                room_id@,
                *game_type,
                creator@,
                *max_players,
                creator_chain@,
                ts,
            )
        },
        Message::PlayerJoiningRoom { room_id, player } => (
            shard_player_joined(rv, room_id@, player@),
            Seq::empty(),
        ),
        Message::ProcessMove { room_id, player, move_data } => shard_move_processed(
            rv,
            room_id@,
            player@,
            move_data@,
            ts,
        ),
        _ => (rv, Seq::empty()),
    }
}

impl RoomChainState {
    /// Brings up an empty shard that knows its own identity.
    pub fn instantiate(self_chain_id: String) -> (s: RoomChainState)
        ensures
            s@ == fresh_shard(self_chain_id@),
    {
        let s = RoomChainState {
            self_chain_id,
            room_id: String::new(),
            game_type: GameType::TicTacToe,
            players: Vec::new(),
            max_players: 2,
            status: RoomStatus::Waiting,
            current_state: String::new(),
            moves: Vec::new(),
            created_at: 0,
            creator_chain: String::new(),
            move_counter: 0,
        };
        proof {
            assert(s@.players =~= Seq::<Seq<char>>::empty());
            assert(s@.moves =~= Seq::<Seq<char>>::empty());
        }
        s
    }

    /// Applies one inbound message, per `shard_message_applied`.
    pub fn execute_message(&mut self, message: Message, timestamp: u64) -> (out: Vec<
        OutboundMessage,
    >)
        requires
            timestamp >= old(self).created_at,
        ensures
            (final(self)@, out.deep_view()) == shard_message_applied(
                old(self)@,
                &message,
                timestamp,
            ),
    {
        let mut out: Vec<OutboundMessage> = Vec::new();
        match message {
            Message::InitializeRoom { room_id, game_type, creator, max_players, creator_chain } => {
                self.room_id = room_id.clone();
                self.game_type = game_type;
                let mut players: Vec<String> = Vec::new();
                players.push(creator.clone());
                proof {
                    assert(players.deep_view() =~= seq![creator@]);
                }
                self.players = players;
                self.max_players = max_players;
                self.status = RoomStatus::Waiting;
                self.current_state = String::new();
                self.created_at = timestamp;
                self.creator_chain = creator_chain.clone();
                self.move_counter = 0;
                let msg = Message::RoomChainReady {
                    room_id,
                    creator,
                    game_type,
                    room_chain_id: self.self_chain_id.clone(),
                };
                out.push(OutboundMessage { destination: creator_chain, message: msg });
                proof {
                    assert(out.deep_view() =~= shard_message_applied(
                        old(self)@,
                        &message,
                        timestamp,
                    ).1);
                }
            },
            Message::PlayerJoiningRoom { room_id, player } => {
                if str_eq(self.room_id.as_str(), room_id.as_str()) {
                    if matches!(self.status, RoomStatus::Waiting) && !contains_string(
                        &self.players,
                        player.as_str(),
                    ) && self.players.len() < self.max_players as usize {
                        let ghost pre = self.players.deep_view();
                        let ghost pv = player@;
                        self.players.push(player);
                        proof {
                            assert(self.players.deep_view() =~= pre.push(pv));
                        }
                        if self.players.len() >= self.max_players as usize {
                            self.status = RoomStatus::InProgress;
                        }
                    }
                }
            },
            Message::ProcessMove { room_id, player, move_data } => {
                if str_eq(self.room_id.as_str(), room_id.as_str()) && matches!(
                    self.status,
                    RoomStatus::InProgress,
                ) && contains_string(&self.players, player.as_str()) {
                    let new_state = match self.game_type {
                        GameType::TicTacToe => process_tictactoe_move(
                            self.current_state.as_str(),
                            move_data.as_str(),
                            player.as_str(),
                            &self.players,
                        ),
                        _ => self.current_state.clone(),
                    };
                    self.current_state = new_state;
                    let ghost pre_moves = self.moves.deep_view();
                    self.moves.push(move_data.clone());
                    proof {
                        assert(self.moves.deep_view() =~= pre_moves.push(move_data@));
                    }
                    self.move_counter = bump_u64(self.move_counter);
                    let won = match self.game_type {
                        GameType::TicTacToe => check_tictactoe_win(self.current_state.as_str()),
                        _ => false,
                    };
                    if won {
                        self.status = RoomStatus::Finished;
                        let stats = self.winning_scores(&player);
                        let duration = (timestamp - self.created_at) / 1000000;
                        let msg = Message::GameEndedWithStats {
                            room_id,
                            winner: Some(player),
                            player_stats: stats,
                            game_type: self.game_type,
                            duration_seconds: duration,
                        };
                        out.push(
                            OutboundMessage { destination: self.creator_chain.clone(), message: msg },
                        );
                        proof {
                            assert(out.deep_view() =~= shard_message_applied(
                                old(self)@,
                                &message,
                                timestamp,
                            ).1);
                        }
                    }
                }
            },
            _ => {},
        }
        proof {
            assert(out.deep_view().len() == 0 ==> out.deep_view() =~= Seq::<OutboundView>::empty());
        }
        out
    }

    /// Builds the score vector of a win: 1 for the winner, 0 otherwise.
    fn winning_scores(&self, winner: &String) -> (r: Vec<(String, u32)>)
        ensures
            r.deep_view() == win_scores(self@.players, winner@),
    {
        let n = self.players.len();
        let mut out: Vec<(String, u32)> = Vec::new();
        let mut i: usize = 0;
        while i < n
            invariant
                n == self.players.len(),
                i <= n,
                out@.len() == i,
                forall|j: int|
                    0 <= j < i ==> out.deep_view()[j] == win_scores(self@.players, winner@)[j],
            decreases n - i,
        {
            let p = self.players[i].clone();
            let s: u32 = if str_eq(p.as_str(), winner.as_str()) {
                1
            } else {
                0
            };
            let ghost pre = out.deep_view();
            out.push((p, s));
            proof {
                assert(self@.players[i as int] == self.players@[i as int]@);
                assert(out.deep_view() =~= pre.push((p@, s)));
                assert(win_scores(self@.players, winner@)[i as int] == (
                    self@.players[i as int],
                    if self@.players[i as int] == winner@ {
                        1u32
                    } else {
                        0u32
                    },
                ));
            }
            i = i + 1;
        }
        proof {
            assert(out.deep_view() =~= win_scores(self@.players, winner@));
        }
        out
    }
}


/// Past its bootstrap, a shard's lifecycle never runs backwards: a seat
/// request or a move can only advance the status.
pub proof fn lemma_shard_status_monotonic(
    rv: RoomChainView,
    room_id: Seq<char>,
    player: Seq<char>,
    move_data: Seq<char>,
    ts: u64,
)
    ensures
        crate::hub_rooms::status_rank(shard_player_joined(rv, room_id, player).status)
            >= crate::hub_rooms::status_rank(rv.status),
        crate::hub_rooms::status_rank(
            shard_move_processed(rv, room_id, player, move_data, ts).0.status,
        ) >= crate::hub_rooms::status_rank(rv.status),
{
}

} // verus!
