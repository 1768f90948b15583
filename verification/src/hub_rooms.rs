//! The hub's handlers for the room lifecycle: opening a room on a fresh
//! shard, routing joins and moves, and closing.
//!
//! Opening a room records the id-to-shard mapping both ways, seeds the
//! mirror with the creator, and sends the shard its configuration.  A
//! join updates the mirror at once (best-effort, for discovery) and
//! independently forwards the seat request to the shard, which holds the
//! authoritative copy: the two records are deliberately not transactional.
//! A move is forwarded to the room's shard when one is mapped; only a
//! room with no shard is played out on the hub's own mirror.

use vstd::prelude::*;

use crate::grid::{grid_apply, grid_win, check_tictactoe_win, process_tictactoe_move};
use crate::hub::{game_key, game_key_spec, station_wf, GameStationState, StationView};
use crate::numstr::{dec_rep, u64_to_string};
use crate::progression::{bump_u64, bumped64};
use crate::text::{contains_string, str_eq};
use crate::track::{check_snakeladders_win, process_snakeladders_move, track_move, track_win};
use crate::types::{
    GameMode, GameRoom, GameType, Message, MessageView, OutboundMessage, OutboundView,
    RoomStatus, RoomView,
};

verus! {

/// The room identifier for a game and a counter value.
pub open spec fn room_id_spec(gt: GameType, counter: u64) -> Seq<char> {
    seq!['r', 'o', 'o', 'm', '-'] + game_key_spec(gt) + seq!['-'] + dec_rep(counter as nat)
}

/// A list of texts with every occurrence of one text taken out.
pub open spec fn without_text(l: Seq<Seq<char>>, who: Seq<char>) -> Seq<Seq<char>>
    decreases l.len(),
{
    if l.len() == 0 {
        Seq::empty()
    } else {
        let prev = without_text(l.drop_last(), who);
        if l.last() == who {
            prev
        } else {
            prev.push(l.last())
        }
    }
}

/// Taking a text out never lengthens the list.
pub proof fn lemma_without_text_len(l: Seq<Seq<char>>, who: Seq<char>)
    ensures
        without_text(l, who).len() <= l.len(),
    decreases l.len(),
{
    if l.len() > 0 {
        lemma_without_text_len(l.drop_last(), who);
    }
}

/// The hub's shard identity, empty when not yet recorded.
pub open spec fn hub_ref(v: StationView) -> Seq<char> {
    match v.main_chain_id {
        Some(c) => c,
        None => Seq::empty(),
    }
}

/// The store and outbox after a room is opened: the id maps to the fresh
/// shard both ways, the mirror seeds the creator and waits, and the shard
/// receives its configuration.
pub open spec fn room_created(
    v: StationView,
    owner: Seq<char>,
    gt: GameType,
    max_players: u8,
    entry_fee: u64,
    mode: GameMode,
    ts: u64,
    fresh: Seq<char>,
) -> (StationView, Seq<OutboundView>) {
    let rid = room_id_spec(gt, v.room_counter);
    let room = RoomView {
        id: rid,
        game_type: gt,
        creator: owner,
        players: seq![owner],
        max_players: max_players,
        entry_fee: entry_fee,
        status: RoomStatus::Waiting,
        current_state: Seq::empty(),
        winner: None,
        created_at: ts,
        last_move_time: ts,
        game_mode: mode,
    };
    let msg = MessageView::InitializeRoom {
        room_id: rid,
        game_type: gt,
        creator: owner,
        max_players: max_players,
        creator_chain: hub_ref(v),
    };
    let v1 = StationView {
        room_chains: v.room_chains.insert(rid, fresh),
        chain_to_room: v.chain_to_room.insert(fresh, rid),
        rooms: v.rooms.insert(rid, room),
        active_room_ids: v.active_room_ids.push(rid),
        room_counter: bumped64(v.room_counter),
        ..v
    };
    (v1, seq![OutboundView { destination: fresh, message: msg }])
}

/// The store and outbox after a join: the mirror seats a new player in a
/// waiting, unfilled room and flips to in-progress on the last seat; a
/// mapped shard is told independently, whatever the mirror did.
pub open spec fn room_joined(v: StationView, owner: Seq<char>, rid: Seq<char>) -> (
    StationView,
    Seq<OutboundView>,
) {
    let v1 = if v.rooms.contains_key(rid) {
        let room = v.rooms[rid];
        if room.status == RoomStatus::Waiting && !room.players.contains(owner)
            && room.players.len() < room.max_players as int {
            let ps = room.players.push(owner);
            let st = if ps.len() >= room.max_players as int {
                RoomStatus::InProgress
            } else {
                RoomStatus::Waiting
            };
            StationView {
                rooms: v.rooms.insert(rid, RoomView { players: ps, status: st, ..room }),
                ..v
            }
        } else {
            v
        }
    } else {
        v
    };
    let out = if v.room_chains.contains_key(rid) {
        seq![
            OutboundView {
                destination: v.room_chains[rid],
                message: MessageView::PlayerJoiningRoom { room_id: rid, player: owner },
            },
        ]
    } else {
        Seq::empty()
    };
    (v1, out)
}

/// The store after a leave: only a waiting room lets go, and a room left
/// empty disappears from the directory.
pub open spec fn room_left(v: StationView, owner: Seq<char>, rid: Seq<char>) -> StationView {
    if v.rooms.contains_key(rid) {
        let room = v.rooms[rid];
        if room.status == RoomStatus::Waiting {
            let ps = without_text(room.players, owner);
            if ps.len() == 0 {
                StationView {
                    rooms: v.rooms.remove(rid),
                    active_room_ids: without_text(v.active_room_ids, rid),
                    ..v
                }
            } else {
                StationView {
                    rooms: v.rooms.insert(rid, RoomView { players: ps, ..room }),
                    ..v
                }
            }
        } else {
            v
        }
    } else {
        v
    }
}

/// The state a move leaves on the mirror's board, by game type.
pub open spec fn mirror_state_after(
    room: RoomView,
    owner: Seq<char>,
    move_data: Seq<char>,
) -> Seq<char> {
    match room.game_type {
        GameType::TicTacToe => grid_apply(room.current_state, move_data, owner, room.players),
        GameType::SnakeLadders => track_move(room.current_state, move_data, owner),
        _ => room.current_state,
    }
}

/// Whether the mover has won on the state a move left, by game type.
pub open spec fn mirror_win_after(room: RoomView, owner: Seq<char>, state: Seq<char>) -> bool {
    match room.game_type {
        GameType::TicTacToe => grid_win(state),
        GameType::SnakeLadders => track_win(state, owner),
        _ => false,
    }
}

/// The store and outbox after a move: a mapped room forwards the move to
/// its shard untouched; only an unmapped room is played on the mirror,
/// where a member's move in a running room advances the board and a win
/// finishes the room.
pub open spec fn move_made(
    v: StationView,
    owner: Seq<char>,
    rid: Seq<char>,
    move_data: Seq<char>,
    ts: u64,
) -> (StationView, Seq<OutboundView>) {
    if v.room_chains.contains_key(rid) {
        (
            v,
            seq![
                OutboundView {
                    destination: v.room_chains[rid],
                    message: MessageView::ProcessMove {
                        room_id: rid,
                        player: owner,
                        move_data: move_data,
                    },
                },
            ],
        )
    } else {
        if v.rooms.contains_key(rid) {
            let room = v.rooms[rid];
            if room.status == RoomStatus::InProgress && room.players.contains(owner) {
                let state1 = mirror_state_after(room, owner, move_data);
                let won = mirror_win_after(room, owner, state1);
                let room1 = RoomView {
                    current_state: state1,
                    last_move_time: ts,
                    status: if won {
                        RoomStatus::Finished
                    } else {
                        room.status
                    },
                    winner: if won {
                        Some(owner)
                    } else {
                        room.winner
                    },
                    ..room
                };
                let v1 = StationView {
                    rooms: v.rooms.insert(rid, room1),
                    active_room_ids: if won {
                        without_text(v.active_room_ids, rid)
                    } else {
                        v.active_room_ids
                    },
                    ..v
                };
                (v1, Seq::empty())
            } else {
                (v, Seq::empty())
            }
        } else {
            (v, Seq::empty())
        }
    }
}

/// The store after an explicit close: the room finishes and leaves the
/// active index, without a completion report.
pub open spec fn room_closed(v: StationView, rid: Seq<char>) -> StationView {
    if v.rooms.contains_key(rid) {
        StationView {
            rooms: v.rooms.insert(rid, RoomView { status: RoomStatus::Finished, ..v.rooms[rid] }),
            active_room_ids: without_text(v.active_room_ids, rid),
            ..v
        }
    } else {
        v
    }
}

/// Keeps only the texts that differ from `who`.
pub fn filter_strings(l: &Vec<String>, who: &str) -> (r: Vec<String>)
    ensures
        r.deep_view() == without_text(l.deep_view(), who@),
{
    let n = l.len();
    let mut out: Vec<String> = Vec::new();
    let mut i: usize = 0;
    proof {
        assert(out.deep_view() =~= without_text(l.deep_view().take(0), who@));
    }
    while i < n
        invariant
            n == l.len(),
            i <= n,
            out.deep_view() == without_text(l.deep_view().take(i as int), who@),
        decreases n - i,
    {
        proof {
            let lv = l.deep_view();
            assert(lv.take(i + 1).drop_last() =~= lv.take(i as int));
            assert(lv.take(i + 1).last() == lv[i as int]);
            assert(lv[i as int] == l@[i as int]@);
        }
        if !str_eq(l[i].as_str(), who) {
            let ghost pre = out.deep_view();
            out.push(l[i].clone());
            proof {
                assert(out.deep_view() =~= pre.push(l.deep_view()[i as int]));
            }
        }
        i = i + 1;
    }
    proof {
        assert(l.deep_view().take(n as int) =~= l.deep_view());
    }
    out
}

impl GameStationState {
    /// Drops a room id from the active index.
    pub fn remove_from_active_rooms(&mut self, room_id: &str)
        ensures
            final(self)@ == (StationView {
                active_room_ids: without_text(old(self)@.active_room_ids, room_id@),
                ..old(self)@
            }),
            station_wf(old(self)) ==> station_wf(final(self)),
    {
        let kept = filter_strings(&self.active_room_ids, room_id);
        self.active_room_ids = kept;
    }

    /// Opens a room on a freshly allocated shard, per `room_created`.
    pub fn handle_create_room(
        &mut self,
        owner: String,
        game_type: GameType,
        max_players: u8,
        entry_fee: u64,
        game_mode: GameMode,
        timestamp: u64,
        fresh_chain: String,
    ) -> (out: Vec<OutboundMessage>)
        requires
            station_wf(old(self)),
        ensures
            station_wf(final(self)),
            (final(self)@, out.deep_view()) == room_created(
                old(self)@,
                owner@,
                game_type,
                max_players,
                entry_fee,
                game_mode,
                timestamp,
                fresh_chain@,
            ),
    {
        let mut rid = String::from_str("room-");
        let key = game_key(game_type);
        rid.append(key.as_str());
        rid.append("-");
        let num = u64_to_string(self.room_counter);
        rid.append(num.as_str());
        proof {
            reveal_strlit("room-");
            reveal_strlit("-");
            assert(rid@ =~= room_id_spec(game_type, self.room_counter));
        }
        self.room_chains.insert(rid.clone(), fresh_chain.clone());
        self.chain_to_room.insert(fresh_chain.clone(), rid.clone());
        let mut players: Vec<String> = Vec::new();
        players.push(owner.clone());
        let room = GameRoom {
            id: rid.clone(),
            game_type,
            creator: owner.clone(),
            players,
            max_players,
            entry_fee,
            status: RoomStatus::Waiting,
            current_state: String::new(),
            winner: None,
            created_at: timestamp,
            last_move_time: timestamp,
            game_mode,
        };
        proof {
            assert(room@.players =~= seq![owner@]);
        }
        self.rooms.insert(rid.clone(), room);
        let ghost pre_active = self.active_room_ids.deep_view();
        self.active_room_ids.push(rid.clone());
        proof {
            assert(self.active_room_ids.deep_view() =~= pre_active.push(rid@));
        }
        let hub_chain = match &self.main_chain_id {
            Some(c) => c.clone(),
            None => String::new(),
        };
        let msg = Message::InitializeRoom {
            room_id: rid,
            game_type,
            creator: owner,
            max_players,
            creator_chain: hub_chain,
        };
        let mut out: Vec<OutboundMessage> = Vec::new();
        out.push(OutboundMessage { destination: fresh_chain, message: msg });
        self.room_counter = bump_u64(self.room_counter);
        proof {
            let spec_pair = room_created(
                old(self)@,
                owner@,
                game_type,
                max_players,
                entry_fee,
                game_mode,
                timestamp,
                fresh_chain@,
            );
            assert(out.deep_view() =~= spec_pair.1);
            assert(hub_chain@ == hub_ref(old(self)@));
            assert(self@ == spec_pair.0);
        }
        out
    }

    /// Seats a joiner on the mirror and tells the shard, per `room_joined`.
    pub fn handle_join_room(&mut self, owner: String, room_id: String, _timestamp: u64) -> (out:
        Vec<OutboundMessage>)
        requires
            station_wf(old(self)),
        ensures
            station_wf(final(self)),
            (final(self)@, out.deep_view()) == room_joined(old(self)@, owner@, room_id@),
    {
        match self.rooms.get(&room_id) {
            Some(r0) => {
                let mut room = r0.clone();
                if matches!(room.status, RoomStatus::Waiting) && !contains_string(
                    &room.players,
                    owner.as_str(),
                ) && room.players.len() < room.max_players as usize {
                    let ghost pre_players = room.players.deep_view();
                    room.players.push(owner.clone());
                    proof {
                        assert(room.players.deep_view() =~= pre_players.push(owner@));
                    }
                    if room.players.len() >= room.max_players as usize {
                        room.status = RoomStatus::InProgress;
                    }
                    self.rooms.insert(room_id.clone(), room);
                }
            },
            None => {},
        }
        let mut out: Vec<OutboundMessage> = Vec::new();
        match self.room_chains.get(&room_id) {
            Some(chain) => {
                let dest = chain.clone();
                out.push(
                    OutboundMessage {
                        destination: dest,
                        message: Message::PlayerJoiningRoom { room_id: room_id, player: owner },
                    },
                );
                proof {
                    assert(out.deep_view() =~= room_joined(old(self)@, owner@, room_id@).1);
                }
            },
            None => {
                proof {
                    assert(out.deep_view() =~= room_joined(old(self)@, owner@, room_id@).1);
                }
            },
        }
        out
    }

    /// Lets a player out of a waiting room, per `room_left`.
    pub fn handle_leave_room(&mut self, owner: String, room_id: String)
        requires
            station_wf(old(self)),
        ensures
            station_wf(final(self)),
            final(self)@ == room_left(old(self)@, owner@, room_id@),
    {
        match self.rooms.get(&room_id) {
            Some(r0) => {
                let mut room = r0.clone();
                if matches!(room.status, RoomStatus::Waiting) {
                    let kept = filter_strings(&room.players, owner.as_str());
                    if kept.len() == 0 {
                        self.rooms.remove(&room_id);
                        self.remove_from_active_rooms(room_id.as_str());
                    } else {
                        proof {
                            lemma_without_text_len(old(self)@.rooms[room_id@].players, owner@);
                        }
                        room.players = kept;
                        self.rooms.insert(room_id, room);
                    }
                }
            },
            None => {},
        }
    }

    /// Routes a move to the room's shard, or plays it on the mirror when
    /// no shard is mapped, per `move_made`.
    pub fn handle_make_move(
        &mut self,
        owner: String,
        room_id: String,
        move_data: String,
        timestamp: u64,
    ) -> (out: Vec<OutboundMessage>)
        requires
            station_wf(old(self)),
        ensures
            station_wf(final(self)),
            (final(self)@, out.deep_view()) == move_made(
                old(self)@,
                owner@,
                room_id@,
                move_data@,
                timestamp,
            ),
    {
        let mut out: Vec<OutboundMessage> = Vec::new();
        match self.room_chains.get(&room_id) {
            Some(chain) => {
                let dest = chain.clone();
                out.push(
                    OutboundMessage {
                        destination: dest,
                        message: Message::ProcessMove {
                            room_id: room_id,
                            player: owner,
                            move_data: move_data,
                        },
                    },
                );
                proof {
                    assert(out.deep_view() =~= move_made(
                        old(self)@,
                        owner@,
                        room_id@,
                        move_data@,
                        timestamp,
                    ).1);
                }
                return out;
            },
            None => {},
        }
        match self.rooms.get(&room_id) {
            Some(r0) => {
                let mut room = r0.clone();
                if matches!(room.status, RoomStatus::InProgress) && contains_string(
                    &room.players,
                    owner.as_str(),
                ) {
                    room.last_move_time = timestamp;
                    let new_state = match room.game_type {
                        GameType::TicTacToe => process_tictactoe_move(
                            room.current_state.as_str(),
                            move_data.as_str(),
                            owner.as_str(),
                            &room.players,
                        ),
                        GameType::SnakeLadders => process_snakeladders_move(
                            room.current_state.as_str(),
                            move_data.as_str(),
                            owner.as_str(),
                        ),
                        _ => room.current_state.clone(),
                    };
                    room.current_state = new_state;
                    let game_won = match room.game_type {
                        GameType::TicTacToe => check_tictactoe_win(room.current_state.as_str()),
                        GameType::SnakeLadders => check_snakeladders_win(
                            room.current_state.as_str(),
                            owner.as_str(),
                        ),
                        _ => false,
                    };
                    if game_won {
                        room.status = RoomStatus::Finished;
                        room.winner = Some(owner);
                        self.remove_from_active_rooms(room_id.as_str());
                    }
                    self.rooms.insert(room_id, room);
                }
            },
            None => {},
        }
        out
    }

    /// Finishes a room without a report, per `room_closed`.
    pub fn handle_close_room(&mut self, room_id: String)
        requires
            station_wf(old(self)),
        ensures
            station_wf(final(self)),
            final(self)@ == room_closed(old(self)@, room_id@),
    {
        match self.rooms.get(&room_id) {
            Some(r0) => {
                let mut room = r0.clone();
                room.status = RoomStatus::Finished;
                self.rooms.insert(room_id.clone(), room);
                self.remove_from_active_rooms(room_id.as_str());
            },
            None => {},
        }
    }
}


/// A waiting room starts the moment its last seat is taken: the join
/// that reaches capacity flips the mirror to in-progress.
pub proof fn lemma_room_fills_to_in_progress(v: StationView, owner: Seq<char>, rid: Seq<char>)
    requires
        v.rooms.contains_key(rid),
        v.rooms[rid].status == RoomStatus::Waiting,
        !v.rooms[rid].players.contains(owner),
        v.rooms[rid].players.len() + 1 == v.rooms[rid].max_players as int,
    ensures
        room_joined(v, owner, rid).0.rooms[rid].status == RoomStatus::InProgress,
{
}

/// A join never seats anyone beyond capacity: a room within its bound
/// stays within its bound, whatever the request.
pub proof fn lemma_join_respects_capacity(v: StationView, owner: Seq<char>, rid: Seq<char>)
    requires
        v.rooms.contains_key(rid),
        v.rooms[rid].players.len() <= v.rooms[rid].max_players as int,
    ensures
        room_joined(v, owner, rid).0.rooms[rid].players.len() <= v.rooms[rid].max_players as int,
{
}


/// A place in the one-way lifecycle: waiting, then in progress, then
/// finished.
pub open spec fn status_rank(s: RoomStatus) -> int {
    match s {
        RoomStatus::Waiting => 0,
        RoomStatus::InProgress => 1,
        RoomStatus::Finished => 2,
    }
}

/// The mirror's lifecycle never runs backwards: whatever a join, a
/// leave, a move or a close does to a room it keeps, the room's status
/// only advances.
pub proof fn lemma_mirror_status_monotonic(
    v: StationView,
    owner: Seq<char>,
    rid: Seq<char>,
    mv: Seq<char>,
    ts: u64,
    k: Seq<char>,
)
    requires
        v.rooms.contains_key(k),
    ensures
        room_joined(v, owner, rid).0.rooms.contains_key(k) ==> status_rank(
            room_joined(v, owner, rid).0.rooms[k].status,
        ) >= status_rank(v.rooms[k].status),
        room_left(v, owner, rid).rooms.contains_key(k) ==> status_rank(
            room_left(v, owner, rid).rooms[k].status,
        ) >= status_rank(v.rooms[k].status),
        move_made(v, owner, rid, mv, ts).0.rooms.contains_key(k) ==> status_rank(
            move_made(v, owner, rid, mv, ts).0.rooms[k].status,
        ) >= status_rank(v.rooms[k].status),
        room_closed(v, rid).rooms.contains_key(k) ==> status_rank(
            room_closed(v, rid).rooms[k].status,
        ) >= status_rank(v.rooms[k].status),
{
}

} // verus!
