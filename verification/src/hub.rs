//! The hub's store: profiles, leaderboards, rooms, tournaments, the social
//! graph, the shard directory and the duplicate-suppression ledger.
//!
//! Every record is keyed by a string identity.  The store's view is a
//! struct of mathematical maps and sequences, and `station_wf` names the
//! invariants the transition functions preserve: healthy profiles, healthy
//! leaderboards, and rooms that are never empty nor over capacity.

use vstd::prelude::*;

use crate::leaderboard::board_wf;
use crate::numstr::{dec_rep, u64_to_string};
use crate::progression::{fresh_profile, new_profile, profile_wf};
use crate::strmap::StrMap;
use crate::types::{
    Challenge, ChallengeView, EntryView, FriendEntry, FriendEntryView, FriendRequest,
    FriendRequestView, GameMode, GameRoom, GameType, LeaderboardEntry, Operation, ProfileView,
    RoomView, Tournament, TournamentView, UserProfile,
};

verus! {

/// The hub's whole store.
pub struct GameStationState {
    pub users: StrMap<UserProfile>,
    pub snake_high_scores: StrMap<u32>,
    pub leaderboards: StrMap<Vec<LeaderboardEntry>>,
    pub total_games: u64,
    pub total_players: u64,
    pub rooms: StrMap<GameRoom>,
    pub room_counter: u64,
    pub active_room_ids: Vec<String>,
    pub tournaments: StrMap<Tournament>,
    pub tournament_counter: u64,
    pub active_tournament_ids: Vec<String>,
    pub friends: StrMap<Vec<FriendEntry>>,
    pub friend_requests: StrMap<Vec<FriendRequest>>,
    pub challenges: StrMap<Challenge>,
    pub challenge_counter: u64,
    pub user_challenges: StrMap<Vec<String>>,
    pub sent_messages: StrMap<bool>,
    pub processed_operations: StrMap<bool>,
    pub room_chains: StrMap<String>,
    pub chain_to_room: StrMap<String>,
    pub main_chain_id: Option<String>,
}

/// Mathematical view of the store.
pub struct StationView {
    pub users: Map<Seq<char>, ProfileView>,
    pub snake_high_scores: Map<Seq<char>, u32>,
    pub leaderboards: Map<Seq<char>, Seq<EntryView>>,
    pub total_games: u64,
    pub total_players: u64,
    pub rooms: Map<Seq<char>, RoomView>,
    pub room_counter: u64,
    pub active_room_ids: Seq<Seq<char>>,
    pub tournaments: Map<Seq<char>, TournamentView>,
    pub tournament_counter: u64,
    pub active_tournament_ids: Seq<Seq<char>>,
    pub friends: Map<Seq<char>, Seq<FriendEntryView>>,
    pub friend_requests: Map<Seq<char>, Seq<FriendRequestView>>,
    pub challenges: Map<Seq<char>, ChallengeView>,
    pub challenge_counter: u64,
    pub user_challenges: Map<Seq<char>, Seq<Seq<char>>>,
    pub sent_messages: Map<Seq<char>, bool>,
    pub processed_operations: Map<Seq<char>, bool>,
    pub room_chains: Map<Seq<char>, Seq<char>>,
    pub chain_to_room: Map<Seq<char>, Seq<char>>,
    pub main_chain_id: Option<Seq<char>>,
}

impl View for GameStationState {
    type V = StationView;

    open spec fn view(&self) -> StationView {
        StationView {
            users: self.users@,
            snake_high_scores: self.snake_high_scores@,
            leaderboards: self.leaderboards@,
            total_games: self.total_games,
            total_players: self.total_players,
            rooms: self.rooms@,
            room_counter: self.room_counter,
            active_room_ids: self.active_room_ids.deep_view(),
            tournaments: self.tournaments@,
            tournament_counter: self.tournament_counter,
            active_tournament_ids: self.active_tournament_ids.deep_view(),
            friends: self.friends@,
            friend_requests: self.friend_requests@,
            challenges: self.challenges@,
            challenge_counter: self.challenge_counter,
            user_challenges: self.user_challenges@,
            sent_messages: self.sent_messages@,
            processed_operations: self.processed_operations@,
            room_chains: self.room_chains@,
            chain_to_room: self.chain_to_room@,
            main_chain_id: match &self.main_chain_id {
                Some(c) => Some(c@),
                None => None,
            },
        }
    }
}

/// A healthy room mirror: never empty, and never over capacity except
/// for the creator alone in a room opened with zero capacity.
pub open spec fn room_inv(r: RoomView) -> bool {
    r.players.len() >= 1 && (r.players.len() <= r.max_players as int || r.players.len() == 1)
}

/// The view-level invariants: healthy profiles and leaderboards, and
/// healthy room mirrors.
pub open spec fn station_inv(v: StationView) -> bool {
    &&& forall|k: Seq<char>|
        v.users.contains_key(k) ==> profile_wf(#[trigger] v.users[k])
    &&& forall|k: Seq<char>|
        v.leaderboards.contains_key(k) ==> board_wf(#[trigger] v.leaderboards[k])
    &&& forall|k: Seq<char>| v.rooms.contains_key(k) ==> room_inv(#[trigger] v.rooms[k])
}

/// A healthy store: every keyed collection holds one entry per key, and
/// the view-level invariants hold.
pub open spec fn station_wf(s: &GameStationState) -> bool {
    &&& s.users.wf()
    &&& s.snake_high_scores.wf()
    &&& s.leaderboards.wf()
    &&& s.rooms.wf()
    &&& s.tournaments.wf()
    &&& s.friends.wf()
    &&& s.friend_requests.wf()
    &&& s.challenges.wf()
    &&& s.user_challenges.wf()
    &&& s.sent_messages.wf()
    &&& s.processed_operations.wf()
    &&& s.room_chains.wf()
    &&& s.chain_to_room.wf()
    &&& station_inv(s@)
}

/// The store a fresh hub starts with: empty records, zero counters, and
/// its own shard identity on record.
pub open spec fn fresh_station(main_chain: Seq<char>) -> StationView {
    StationView {
        users: Map::empty(),
        snake_high_scores: Map::empty(),
        leaderboards: Map::empty(),
        total_games: 0,
        total_players: 0,
        rooms: Map::empty(),
        room_counter: 0,
        active_room_ids: Seq::empty(),
        tournaments: Map::empty(),
        tournament_counter: 0,
        active_tournament_ids: Seq::empty(),
        friends: Map::empty(),
        friend_requests: Map::empty(),
        challenges: Map::empty(),
        challenge_counter: 0,
        user_challenges: Map::empty(),
        sent_messages: Map::empty(),
        processed_operations: Map::empty(),
        room_chains: Map::empty(),
        chain_to_room: Map::empty(),
        main_chain_id: Some(main_chain),
    }
}

/// The per-game leaderboard key and the game's lower-case name.
pub open spec fn game_key_spec(g: GameType) -> Seq<char> {
    match g {
        GameType::Snake => seq!['s', 'n', 'a', 'k', 'e'],
        GameType::TicTacToe => seq!['t', 'i', 'c', 't', 'a', 'c', 't', 'o', 'e'],
        GameType::SnakeLadders => seq![
            's',
            'n',
            'a',
            'k',
            'e',
            'l',
            'a',
            'd',
            'd',
            'e',
            'r',
            's',
        ],
        GameType::Uno => seq!['u', 'n', 'o'],
    }
}

/// Renders a game's lower-case name.
pub fn game_key(g: GameType) -> (r: String)
    ensures
        r@ == game_key_spec(g),
{
    proof {
        reveal_strlit("snake");
        reveal_strlit("tictactoe");
        reveal_strlit("snakeladders");
        reveal_strlit("uno");
    }
    let r = match g {
        GameType::Snake => String::from_str("snake"),
        GameType::TicTacToe => String::from_str("tictactoe"),
        GameType::SnakeLadders => String::from_str("snakeladders"),
        GameType::Uno => String::from_str("uno"),
    };
    proof {
        assert(r@ =~= game_key_spec(g));
    }
    r
}

/// The key of a game's global leaderboard, used by submitted results.
pub open spec fn global_key_spec(g: GameType) -> Seq<char> {
    game_key_spec(g) + seq!['_', 'g', 'l', 'o', 'b', 'a', 'l']
}

/// Renders the key of a game's global leaderboard.
pub fn global_key(g: GameType) -> (r: String)
    ensures
        r@ == global_key_spec(g),
{
    let mut r = game_key(g);
    r.append("_global");
    proof {
        reveal_strlit("_global");
        assert(r@ =~= global_key_spec(g));
    }
    r
}

/// The board stored under a key, or the empty board.
pub open spec fn existing_board(v: StationView, key: Seq<char>) -> Seq<EntryView> {
    if v.leaderboards.contains_key(key) {
        v.leaderboards[key]
    } else {
        Seq::empty()
    }
}

/// A number for each action variant, used by the fingerprint.
pub open spec fn op_code(op: &Operation) -> nat {
    match op {
        Operation::SubmitSnakeScore { .. } => 0,
        Operation::SubmitTicTacToeResult { .. } => 1,
        Operation::SubmitSnakeLaddersResult { .. } => 2,
        Operation::SubmitUnoResult { .. } => 3,
        Operation::UpdateProfile { .. } => 4,
        Operation::CreateRoom { .. } => 5,
        Operation::JoinRoom { .. } => 6,
        Operation::LeaveRoom { .. } => 7,
        Operation::MakeMove { .. } => 8,
        Operation::CloseRoom { .. } => 9,
        Operation::CreateTournament { .. } => 10,
        Operation::JoinTournament { .. } => 11,
        Operation::StartTournament { .. } => 12,
        Operation::AdvanceTournament { .. } => 13,
        Operation::SendFriendRequest { .. } => 14,
        Operation::AcceptFriendRequest { .. } => 15,
        Operation::RejectFriendRequest { .. } => 16,
        Operation::RemoveFriend { .. } => 17,
        Operation::CreateChallenge { .. } => 18,
        Operation::AcceptChallenge { .. } => 19,
        Operation::DeclineChallenge { .. } => 20,
    }
}

pub open spec fn game_type_code(g: GameType) -> nat {
    match g {
        GameType::Snake => 0,
        GameType::TicTacToe => 1,
        GameType::SnakeLadders => 2,
        GameType::Uno => 3,
    }
}

pub open spec fn game_mode_code(m: GameMode) -> nat {
    match m {
        GameMode::Solo => 0,
        GameMode::Practice => 1,
        GameMode::Multiplayer => 2,
    }
}

pub open spec fn bool_code(b: bool) -> nat {
    if b {
        1
    } else {
        0
    }
}

/// The action's payload, rendered canonically.
pub open spec fn op_fields(op: &Operation) -> Seq<char> {
    let sep = seq!['|'];
    match op {
        Operation::SubmitSnakeScore { score, game_mode } => dec_rep(*score as nat) + sep + dec_rep(
            game_mode_code(*game_mode),
        ),
        Operation::SubmitTicTacToeResult { won, game_mode } => dec_rep(bool_code(*won)) + sep
            + dec_rep(game_mode_code(*game_mode)),
        Operation::SubmitSnakeLaddersResult { won, game_mode } => dec_rep(bool_code(*won)) + sep
            + dec_rep(game_mode_code(*game_mode)),
        Operation::SubmitUnoResult { won, game_mode } => dec_rep(bool_code(*won)) + sep + dec_rep(
            game_mode_code(*game_mode),
        ),
        Operation::UpdateProfile { username, avatar_id } => username@ + sep + dec_rep(
            *avatar_id as nat,
        ),
        Operation::CreateRoom { game_type, max_players, entry_fee, game_mode } => dec_rep(
            game_type_code(*game_type),
        ) + sep + dec_rep(*max_players as nat) + sep + dec_rep(*entry_fee as nat) + sep + dec_rep(
            game_mode_code(*game_mode),
        ),
        Operation::JoinRoom { room_id } => room_id@,
        Operation::LeaveRoom { room_id } => room_id@,
        Operation::MakeMove { room_id, move_data } => room_id@ + sep + move_data@,
        Operation::CloseRoom { room_id } => room_id@,
        Operation::CreateTournament { name, game_type, max_players } => name@ + sep + dec_rep(
            game_type_code(*game_type),
        ) + sep + dec_rep(*max_players as nat),
        Operation::JoinTournament { tournament_id } => tournament_id@,
        Operation::StartTournament { tournament_id } => tournament_id@,
        Operation::AdvanceTournament { tournament_id, match_id, winner } => tournament_id@ + sep
            + match_id@ + sep + winner@,
        Operation::SendFriendRequest { to_address } => to_address@,
        Operation::AcceptFriendRequest { from_address } => from_address@,
        Operation::RejectFriendRequest { from_address } => from_address@,
        Operation::RemoveFriend { friend_address } => friend_address@,
        Operation::CreateChallenge { opponent, game_type, wager } => opponent@ + sep + dec_rep(
            game_type_code(*game_type),
        ) + sep + dec_rep(*wager as nat),
        Operation::AcceptChallenge { challenge_id } => challenge_id@,
        Operation::DeclineChallenge { challenge_id } => challenge_id@,
    }
}

/// The fingerprint of one dispatch: the action's variant and payload, who
/// submitted it, and when.
pub open spec fn op_fingerprint(op: &Operation, owner: Seq<char>, timestamp: u64) -> Seq<char> {
    dec_rep(op_code(op)) + seq!['|'] + op_fields(op) + seq!['|'] + owner + seq!['|'] + dec_rep(
        timestamp as nat,
    )
}

/// Renders the fingerprint of one dispatch.
pub fn generate_operation_id(op: &Operation, owner: &str, timestamp: u64) -> (r: String)
    ensures
        r@ == op_fingerprint(op, owner@, timestamp),
{
    proof {
        reveal_strlit("|");
    }
    let mut out = u64_to_string(op_code_exec(op));
    out.append("|");
    let fields = op_fields_exec(op);
    out.append(fields.as_str());
    out.append("|");
    out.append(owner);
    out.append("|");
    let ts = u64_to_string(timestamp);
    out.append(ts.as_str());
    proof {
        assert(out@ =~= op_fingerprint(op, owner@, timestamp));
    }
    out
}

/// The action's variant number.
fn op_code_exec(op: &Operation) -> (r: u64)
    ensures
        r as nat == op_code(op),
{
    match op {
        Operation::SubmitSnakeScore { .. } => 0,
        Operation::SubmitTicTacToeResult { .. } => 1,
        Operation::SubmitSnakeLaddersResult { .. } => 2,
        Operation::SubmitUnoResult { .. } => 3,
        Operation::UpdateProfile { .. } => 4,
        Operation::CreateRoom { .. } => 5,
        Operation::JoinRoom { .. } => 6,
        Operation::LeaveRoom { .. } => 7,
        Operation::MakeMove { .. } => 8,
        Operation::CloseRoom { .. } => 9,
        Operation::CreateTournament { .. } => 10,
        Operation::JoinTournament { .. } => 11,
        Operation::StartTournament { .. } => 12,
        Operation::AdvanceTournament { .. } => 13,
        Operation::SendFriendRequest { .. } => 14,
        Operation::AcceptFriendRequest { .. } => 15,
        Operation::RejectFriendRequest { .. } => 16,
        Operation::RemoveFriend { .. } => 17,
        Operation::CreateChallenge { .. } => 18,
        Operation::AcceptChallenge { .. } => 19,
        Operation::DeclineChallenge { .. } => 20,
    }
}

fn game_type_code_exec(g: GameType) -> (r: u64)
    ensures
        r as nat == game_type_code(g),
{
    match g {
        GameType::Snake => 0,
        GameType::TicTacToe => 1,
        GameType::SnakeLadders => 2,
        GameType::Uno => 3,
    }
}

fn game_mode_code_exec(m: GameMode) -> (r: u64)
    ensures
        r as nat == game_mode_code(m),
{
    match m {
        GameMode::Solo => 0,
        GameMode::Practice => 1,
        GameMode::Multiplayer => 2,
    }
}

fn bool_code_exec(b: bool) -> (r: u64)
    ensures
        r as nat == bool_code(b),
{
    if b {
        1
    } else {
        0
    }
}

/// Renders the action's payload.
#[verifier::rlimit(80)]
fn op_fields_exec(op: &Operation) -> (r: String)
    ensures
        r@ == op_fields(op),
{
    proof {
        reveal_strlit("|");
    }
    match op {
        Operation::SubmitSnakeScore { score, game_mode } => {
            let mut s = u64_to_string(*score as u64);
            s.append("|");
            let m = u64_to_string(game_mode_code_exec(*game_mode));
            s.append(m.as_str());
            proof {
                assert(s@ =~= op_fields(op));
            }
            s
        },
        Operation::SubmitTicTacToeResult { won, game_mode } => {
            let mut s = u64_to_string(bool_code_exec(*won));
            s.append("|");
            let m = u64_to_string(game_mode_code_exec(*game_mode));
            s.append(m.as_str());
            proof {
                assert(s@ =~= op_fields(op));
            }
            s
        },
        Operation::SubmitSnakeLaddersResult { won, game_mode } => {
            let mut s = u64_to_string(bool_code_exec(*won));
            s.append("|");
            let m = u64_to_string(game_mode_code_exec(*game_mode));
            s.append(m.as_str());
            proof {
                assert(s@ =~= op_fields(op));
            }
            s
        },
        Operation::SubmitUnoResult { won, game_mode } => {
            let mut s = u64_to_string(bool_code_exec(*won));
            s.append("|");
            let m = u64_to_string(game_mode_code_exec(*game_mode));
            s.append(m.as_str());
            proof {
                assert(s@ =~= op_fields(op));
            }
            s
        },
        Operation::UpdateProfile { username, avatar_id } => {
            let mut s = username.clone();
            s.append("|");
            let a = u64_to_string(*avatar_id as u64);
            s.append(a.as_str());
            proof {
                assert(s@ =~= op_fields(op));
            }
            s
        },
        Operation::CreateRoom { game_type, max_players, entry_fee, game_mode } => {
            let mut s = u64_to_string(game_type_code_exec(*game_type));
            s.append("|");
            let p = u64_to_string(*max_players as u64);
            s.append(p.as_str());
            s.append("|");
            let f = u64_to_string(*entry_fee);
            s.append(f.as_str());
            s.append("|");
            let m = u64_to_string(game_mode_code_exec(*game_mode));
            s.append(m.as_str());
            proof {
                assert(s@ =~= op_fields(op));
            }
            s
        },
        Operation::JoinRoom { room_id } => room_id.clone(),
        Operation::LeaveRoom { room_id } => room_id.clone(),
        Operation::MakeMove { room_id, move_data } => {
            let mut s = room_id.clone();
            s.append("|");
            s.append(move_data.as_str());
            proof {
                assert(s@ =~= op_fields(op));
            }
            s
        },
        Operation::CloseRoom { room_id } => room_id.clone(),
        Operation::CreateTournament { name, game_type, max_players } => {
            let mut s = name.clone();
            s.append("|");
            let g = u64_to_string(game_type_code_exec(*game_type));
            s.append(g.as_str());
            s.append("|");
            let p = u64_to_string(*max_players as u64);
            s.append(p.as_str());
            proof {
                assert(s@ =~= op_fields(op));
            }
            s
        },
        Operation::JoinTournament { tournament_id } => tournament_id.clone(),
        Operation::StartTournament { tournament_id } => tournament_id.clone(),
        Operation::AdvanceTournament { tournament_id, match_id, winner } => {
            let mut s = tournament_id.clone();
            s.append("|");
            s.append(match_id.as_str());
            s.append("|");
            s.append(winner.as_str());
            proof {
                assert(s@ =~= op_fields(op));
            }
            s
        },
        Operation::SendFriendRequest { to_address } => to_address.clone(),
        Operation::AcceptFriendRequest { from_address } => from_address.clone(),
        Operation::RejectFriendRequest { from_address } => from_address.clone(),
        Operation::RemoveFriend { friend_address } => friend_address.clone(),
        Operation::CreateChallenge { opponent, game_type, wager } => {
            let mut s = opponent.clone();
            s.append("|");
            let g = u64_to_string(game_type_code_exec(*game_type));
            s.append(g.as_str());
            s.append("|");
            let w = u64_to_string(*wager);
            s.append(w.as_str());
            proof {
                assert(s@ =~= op_fields(op));
            }
            s
        },
        Operation::AcceptChallenge { challenge_id } => challenge_id.clone(),
        Operation::DeclineChallenge { challenge_id } => challenge_id.clone(),
    }
}

impl GameStationState {
    /// Sets up a fresh hub that knows its own shard identity.
    pub fn instantiate(main_chain_id: String) -> (s: GameStationState)
        ensures
            s@ == fresh_station(main_chain_id@),
            station_wf(&s),
    {
        let s = GameStationState {
            users: StrMap::new(),
            snake_high_scores: StrMap::new(),
            leaderboards: StrMap::new(),
            total_games: 0,
            total_players: 0,
            rooms: StrMap::new(),
            room_counter: 0,
            active_room_ids: Vec::new(),
            tournaments: StrMap::new(),
            tournament_counter: 0,
            active_tournament_ids: Vec::new(),
            friends: StrMap::new(),
            friend_requests: StrMap::new(),
            challenges: StrMap::new(),
            challenge_counter: 0,
            user_challenges: StrMap::new(),
            sent_messages: StrMap::new(),
            processed_operations: StrMap::new(),
            room_chains: StrMap::new(),
            chain_to_room: StrMap::new(),
            main_chain_id: Some(main_chain_id),
        };
        proof {
            assert(s@.active_room_ids =~= Seq::<Seq<char>>::empty());
            assert(s@.active_tournament_ids =~= Seq::<Seq<char>>::empty());
        }
        s
    }

    /// Whether a fingerprint is already on the ledger.
    pub fn is_operation_processed(&self, op_id: &String) -> (r: bool)
        requires
            station_wf(self),
        ensures
            r == (self@.processed_operations.contains_key(op_id@)
                && self@.processed_operations[op_id@]),
    {
        match self.processed_operations.get(op_id) {
            Some(b) => *b,
            None => false,
        }
    }

    /// Puts a fingerprint on the ledger.
    pub fn mark_operation_processed(&mut self, op_id: String)
        requires
            station_wf(old(self)),
        ensures
            station_wf(final(self)),
            final(self)@ == (StationView {
                processed_operations: old(self)@.processed_operations.insert(op_id@, true),
                ..old(self)@
            }),
    {
        self.processed_operations.insert(op_id, true);
    }

    /// The profile stored for an address, or the starting profile for an
    /// unseen one, which is stored and counted.
    pub fn get_or_create_profile(&mut self, address: &String, timestamp: u64) -> (p: UserProfile)
        requires
            station_wf(old(self)),
        ensures
            station_wf(final(self)),
            p@ == profile_or_fresh(old(self)@, address@, timestamp),
            profile_wf(p@),
            final(self)@ == stored_profile(old(self)@, address@, timestamp),
    {
        match self.users.get(address) {
            Some(p) => p.clone(),
            None => {
                let p = new_profile(address.as_str(), timestamp);
                self.users.insert(address.clone(), p.clone());
                self.total_players = crate::progression::bump_u64(self.total_players);
                p
            },
        }
    }
    /// Submits one score to the leaderboard stored under a key.
    pub fn update_leaderboard(
        &mut self,
        key: &String,
        player_id: &str,
        player_name: &str,
        score: u32,
    )
        requires
            station_wf(old(self)),
        ensures
            station_wf(final(self)),
            final(self)@ == (StationView {
                leaderboards: old(self)@.leaderboards.insert(
                    key@,
                    crate::leaderboard::board_updated(
                        existing_board(old(self)@, key@),
                        player_id@,
                        player_name@,
                        score,
                    ),
                ),
                ..old(self)@
            }),
    {
        let mut board = match self.leaderboards.get(key) {
            Some(b) => crate::leaderboard::clone_entry_vec(b),
            None => Vec::new(),
        };
        proof {
            assert(board.deep_view() =~= existing_board(self@, key@));
        }
        crate::leaderboard::update_leaderboard_entries(&mut board, player_id, player_name, score);
        self.leaderboards.insert(key.clone(), board);
        proof {
            assert(station_inv(self@)) by {
                assert(forall|k: Seq<char>|
                    self@.leaderboards.contains_key(k) && k != key@
                        ==> #[trigger] self@.leaderboards[k] == old(self)@.leaderboards[k]);
            }
        }
    }
}

/// The profile an address resolves to: the stored one, or a fresh one.
pub open spec fn profile_or_fresh(v: StationView, addr: Seq<char>, timestamp: u64) -> ProfileView {
    if v.users.contains_key(addr) {
        v.users[addr]
    } else {
        fresh_profile(addr, timestamp)
    }
}

/// The store after resolving a profile: unchanged for a known address, or
/// holding the fresh profile and one more counted player.
pub open spec fn stored_profile(v: StationView, addr: Seq<char>, timestamp: u64) -> StationView {
    if v.users.contains_key(addr) {
        v
    } else {
        StationView {
            users: v.users.insert(addr, fresh_profile(addr, timestamp)),
            total_players: crate::progression::bumped64(v.total_players),
            ..v
        }
    }
}

} // verus!
