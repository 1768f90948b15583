//! The platform's data model: game kinds, rooms, tournaments, social records,
//! the client-facing action vocabulary and the hub/shard message vocabulary.
//!
//! Every type that carries a `String` or a `Vec` also has a mathematical view
//! (`Seq<char>` for text, `Seq` for lists) so that contracts can speak about
//! values rather than heap representations.

use vstd::prelude::*;

verus! {

/// Marker type naming the platform's external interface.
pub struct GameStationAbi;

/// The games the platform understands.
#[derive(Clone, Copy, Debug, PartialEq, Eq, Hash, Structural)]
pub enum GameType {
    Snake,
    TicTacToe,
    SnakeLadders,
    Uno,
}

/// How a result was produced; only solo and multiplayer results count.
#[derive(Clone, Copy, Debug, PartialEq, Eq, Structural)]
pub enum GameMode {
    Solo,
    Practice,
    Multiplayer,
}

/// Lifecycle of a room; transitions are monotonic in this order.
#[derive(Clone, Copy, Debug, PartialEq, Eq, Structural)]
pub enum RoomStatus {
    Waiting,
    InProgress,
    Finished,
}

/// Lifecycle of a tournament.
#[derive(Clone, Copy, Debug, PartialEq, Eq, Structural)]
pub enum TournamentStatus {
    Registration,
    InProgress,
    Completed,
}

/// Lifecycle of a wager challenge.
#[derive(Clone, Copy, Debug, PartialEq, Eq, Structural)]
pub enum ChallengeStatus {
    Pending,
    Accepted,
    Declined,
    Completed,
}

/// Per-game counters kept inside a profile.
#[derive(Clone, Copy, Debug, PartialEq, Eq, Structural)]
pub struct GameStats {
    pub games_played: u32,
    pub wins: u32,
    pub losses: u32,
    pub high_score: u32,
    pub total_score: u64,
}

impl GameStats {
    /// All counters zero, the state of a freshly created profile.
    pub fn new() -> (r: GameStats)
        ensures
            r == GameStats::zero(),
    {
        GameStats { games_played: 0, wins: 0, losses: 0, high_score: 0, total_score: 0 }
    }

    pub open spec fn zero() -> GameStats {
        GameStats { games_played: 0, wins: 0, losses: 0, high_score: 0, total_score: 0 }
    }
}

/// One player's identity and progress.
#[derive(Debug)]
pub struct UserProfile {
    pub address: String,
    pub username: String,
    pub avatar_id: u8,
    pub level: u32,
    pub xp: u64,
    pub snake_stats: GameStats,
    pub tictactoe_stats: GameStats,
    pub snakeladders_stats: GameStats,
    pub uno_stats: GameStats,
    pub joined_at: u64,
}

/// Mathematical view of a profile.
pub struct ProfileView {
    pub address: Seq<char>,
    pub username: Seq<char>,
    pub avatar_id: u8,
    pub level: u32,
    pub xp: u64,
    pub snake_stats: GameStats,
    pub tictactoe_stats: GameStats,
    pub snakeladders_stats: GameStats,
    pub uno_stats: GameStats,
    pub joined_at: u64,
}

impl DeepView for UserProfile {
    type V = ProfileView;

    open spec fn deep_view(&self) -> ProfileView {
        self.view()
    }
}

impl View for UserProfile {
    type V = ProfileView;

    open spec fn view(&self) -> ProfileView {
        ProfileView {
            address: self.address@,
            username: self.username@,
            avatar_id: self.avatar_id,
            level: self.level,
            xp: self.xp,
            snake_stats: self.snake_stats,
            tictactoe_stats: self.tictactoe_stats,
            snakeladders_stats: self.snakeladders_stats,
            uno_stats: self.uno_stats,
            joined_at: self.joined_at,
        }
    }
}

impl Clone for UserProfile {
    fn clone(&self) -> (r: Self)
        ensures
            r@ == self@,
    {
        UserProfile {
            address: self.address.clone(),
            username: self.username.clone(),
            avatar_id: self.avatar_id,
            level: self.level,
            xp: self.xp,
            snake_stats: self.snake_stats,
            tictactoe_stats: self.tictactoe_stats,
            snakeladders_stats: self.snakeladders_stats,
            uno_stats: self.uno_stats,
            joined_at: self.joined_at,
        }
    }
}

/// One ranked standing on a per-game leaderboard.
#[derive(Debug)]
pub struct LeaderboardEntry {
    pub player_id: String,
    pub player_name: String,
    pub score: u32,
    pub rank: u32,
}

/// Mathematical view of a leaderboard entry.
pub struct EntryView {
    pub player_id: Seq<char>,
    pub player_name: Seq<char>,
    pub score: u32,
    pub rank: u32,
}

impl DeepView for LeaderboardEntry {
    type V = EntryView;

    open spec fn deep_view(&self) -> EntryView {
        self.view()
    }
}

impl View for LeaderboardEntry {
    type V = EntryView;

    open spec fn view(&self) -> EntryView {
        EntryView {
            player_id: self.player_id@,
            player_name: self.player_name@,
            score: self.score,
            rank: self.rank,
        }
    }
}

impl Clone for LeaderboardEntry {
    fn clone(&self) -> (r: Self)
        ensures
            r@ == self@,
    {
        LeaderboardEntry {
            player_id: self.player_id.clone(),
            player_name: self.player_name.clone(),
            score: self.score,
            rank: self.rank,
        }
    }
}

/// The hub's mirror of one room, kept for discovery and listing.
#[derive(Debug)]
pub struct GameRoom {
    pub id: String,
    pub game_type: GameType,
    pub creator: String,
    pub players: Vec<String>,
    pub max_players: u8,
    pub entry_fee: u64,
    pub status: RoomStatus,
    pub current_state: String,
    pub winner: Option<String>,
    pub created_at: u64,
    pub last_move_time: u64,
    pub game_mode: GameMode,
}

/// Mathematical view of a room record.
pub struct RoomView {
    pub id: Seq<char>,
    pub game_type: GameType,
    pub creator: Seq<char>,
    pub players: Seq<Seq<char>>,
    pub max_players: u8,
    pub entry_fee: u64,
    pub status: RoomStatus,
    pub current_state: Seq<char>,
    pub winner: Option<Seq<char>>,
    pub created_at: u64,
    pub last_move_time: u64,
    pub game_mode: GameMode,
}

impl DeepView for GameRoom {
    type V = RoomView;

    open spec fn deep_view(&self) -> RoomView {
        self.view()
    }
}

impl View for GameRoom {
    type V = RoomView;

    open spec fn view(&self) -> RoomView {
        RoomView {
            id: self.id@,
            game_type: self.game_type,
            creator: self.creator@,
            players: self.players.deep_view(),
            max_players: self.max_players,
            entry_fee: self.entry_fee,
            status: self.status,
            current_state: self.current_state@,
            winner: match self.winner {
                Some(w) => Some(w@),
                None => None,
            },
            created_at: self.created_at,
            last_move_time: self.last_move_time,
            game_mode: self.game_mode,
        }
    }
}

/// Copies a list of strings, keeping its view.
pub fn clone_string_vec(v: &Vec<String>) -> (r: Vec<String>)
    ensures
        r.deep_view() == v.deep_view(),
{
    let n = v.len();
    let mut out: Vec<String> = Vec::new();
    let mut i: usize = 0;
    while i < n
        invariant
            n == v.len(),
            i <= n,
            out@.len() == i,
            forall|j: int| 0 <= j < i ==> out.deep_view()[j] == v.deep_view()[j],
        decreases n - i,
    {
        out.push(v[i].clone());
        i = i + 1;
    }
    proof {
        assert(out.deep_view() =~= v.deep_view());
    }
    out
}

impl Clone for GameRoom {
    fn clone(&self) -> (r: Self)
        ensures
            r@ == self@,
    {
        GameRoom {
            id: self.id.clone(),
            game_type: self.game_type,
            creator: self.creator.clone(),
            players: clone_string_vec(&self.players),
            max_players: self.max_players,
            entry_fee: self.entry_fee,
            status: self.status,
            current_state: self.current_state.clone(),
            winner: match &self.winner {
                Some(w) => Some(w.clone()),
                None => None,
            },
            created_at: self.created_at,
            last_move_time: self.last_move_time,
            game_mode: self.game_mode,
        }
    }
}

/// One pairing inside a tournament round.
#[derive(Debug)]
pub struct TournamentBracket {
    pub player1: String,
    pub player2: String,
}

/// Mathematical view of a bracket.
pub struct BracketView {
    pub player1: Seq<char>,
    pub player2: Seq<char>,
}

impl DeepView for TournamentBracket {
    type V = BracketView;

    open spec fn deep_view(&self) -> BracketView {
        self.view()
    }
}

impl View for TournamentBracket {
    type V = BracketView;

    open spec fn view(&self) -> BracketView {
        BracketView { player1: self.player1@, player2: self.player2@ }
    }
}

impl Clone for TournamentBracket {
    fn clone(&self) -> (r: Self)
        ensures
            r@ == self@,
    {
        TournamentBracket { player1: self.player1.clone(), player2: self.player2.clone() }
    }
}

/// A bracketed single-elimination competition.
#[derive(Debug)]
pub struct Tournament {
    pub id: String,
    pub name: String,
    pub game_type: GameType,
    pub creator: String,
    pub participants: Vec<String>,
    pub max_players: u8,
    pub status: TournamentStatus,
    pub current_round: u32,
    pub brackets: Vec<TournamentBracket>,
    pub created_at: u64,
}

/// Mathematical view of a tournament.
pub struct TournamentView {
    pub id: Seq<char>,
    pub name: Seq<char>,
    pub game_type: GameType,
    pub creator: Seq<char>,
    pub participants: Seq<Seq<char>>,
    pub max_players: u8,
    pub status: TournamentStatus,
    pub current_round: u32,
    pub brackets: Seq<BracketView>,
    pub created_at: u64,
}

impl DeepView for Tournament {
    type V = TournamentView;

    open spec fn deep_view(&self) -> TournamentView {
        self.view()
    }
}

impl View for Tournament {
    type V = TournamentView;

    open spec fn view(&self) -> TournamentView {
        TournamentView {
            id: self.id@,
            name: self.name@,
            game_type: self.game_type,
            creator: self.creator@,
            participants: self.participants.deep_view(),
            max_players: self.max_players,
            status: self.status,
            current_round: self.current_round,
            brackets: self.brackets.deep_view(),
            created_at: self.created_at,
        }
    }
}

/// Copies a list of brackets, keeping its view.
pub fn clone_bracket_vec(v: &Vec<TournamentBracket>) -> (r: Vec<TournamentBracket>)
    ensures
        r.deep_view() == v.deep_view(),
{
    let n = v.len();
    let mut out: Vec<TournamentBracket> = Vec::new();
    let mut i: usize = 0;
    while i < n
        invariant
            n == v.len(),
            i <= n,
            out@.len() == i,
            forall|j: int| 0 <= j < i ==> out.deep_view()[j] == v.deep_view()[j],
        decreases n - i,
    {
        out.push(v[i].clone());
        i = i + 1;
    }
    proof {
        assert(out.deep_view() =~= v.deep_view());
    }
    out
}

impl Clone for Tournament {
    fn clone(&self) -> (r: Self)
        ensures
            r@ == self@,
    {
        Tournament {
            id: self.id.clone(),
            name: self.name.clone(),
            game_type: self.game_type,
            creator: self.creator.clone(),
            participants: clone_string_vec(&self.participants),
            max_players: self.max_players,
            status: self.status,
            current_round: self.current_round,
            brackets: clone_bracket_vec(&self.brackets),
            created_at: self.created_at,
        }
    }
}

/// One edge of the (symmetric) friend graph.
#[derive(Debug)]
pub struct FriendEntry {
    pub address: String,
    pub added_at: u64,
}

/// Mathematical view of a friend edge.
pub struct FriendEntryView {
    pub address: Seq<char>,
    pub added_at: u64,
}

impl DeepView for FriendEntry {
    type V = FriendEntryView;

    open spec fn deep_view(&self) -> FriendEntryView {
        self.view()
    }
}

impl View for FriendEntry {
    type V = FriendEntryView;

    open spec fn view(&self) -> FriendEntryView {
        FriendEntryView { address: self.address@, added_at: self.added_at }
    }
}

impl Clone for FriendEntry {
    fn clone(&self) -> (r: Self)
        ensures
            r@ == self@,
    {
        FriendEntry { address: self.address.clone(), added_at: self.added_at }
    }
}

/// Copies a list of friend edges, keeping its view.
pub fn clone_friend_vec(v: &Vec<FriendEntry>) -> (r: Vec<FriendEntry>)
    ensures
        r.deep_view() == v.deep_view(),
{
    let n = v.len();
    let mut out: Vec<FriendEntry> = Vec::new();
    let mut i: usize = 0;
    while i < n
        invariant
            n == v.len(),
            i <= n,
            out@.len() == i,
            forall|j: int| 0 <= j < i ==> out.deep_view()[j] == v.deep_view()[j],
        decreases n - i,
    {
        out.push(v[i].clone());
        i = i + 1;
    }
    proof {
        assert(out.deep_view() =~= v.deep_view());
    }
    out
}

/// A pending friend request, keyed by its recipient.
#[derive(Debug)]
pub struct FriendRequest {
    pub from_address: String,
    pub timestamp: u64,
}

/// Mathematical view of a friend request.
pub struct FriendRequestView {
    pub from_address: Seq<char>,
    pub timestamp: u64,
}

impl DeepView for FriendRequest {
    type V = FriendRequestView;

    open spec fn deep_view(&self) -> FriendRequestView {
        self.view()
    }
}

impl View for FriendRequest {
    type V = FriendRequestView;

    open spec fn view(&self) -> FriendRequestView {
        FriendRequestView { from_address: self.from_address@, timestamp: self.timestamp }
    }
}

impl Clone for FriendRequest {
    fn clone(&self) -> (r: Self)
        ensures
            r@ == self@,
    {
        FriendRequest { from_address: self.from_address.clone(), timestamp: self.timestamp }
    }
}

/// Copies a list of friend requests, keeping its view.
pub fn clone_request_vec(v: &Vec<FriendRequest>) -> (r: Vec<FriendRequest>)
    ensures
        r.deep_view() == v.deep_view(),
{
    let n = v.len();
    let mut out: Vec<FriendRequest> = Vec::new();
    let mut i: usize = 0;
    while i < n
        invariant
            n == v.len(),
            i <= n,
            out@.len() == i,
            forall|j: int| 0 <= j < i ==> out.deep_view()[j] == v.deep_view()[j],
        decreases n - i,
    {
        out.push(v[i].clone());
        i = i + 1;
    }
    proof {
        assert(out.deep_view() =~= v.deep_view());
    }
    out
}

/// A timed one-on-one wager offer.
#[derive(Debug)]
pub struct Challenge {
    pub id: String,
    pub challenger: String,
    pub opponent: String,
    pub game_type: GameType,
    pub wager: u64,
    pub status: ChallengeStatus,
    pub created_at: u64,
    pub expires_at: u64,
}

/// Mathematical view of a challenge.
pub struct ChallengeView {
    pub id: Seq<char>,
    pub challenger: Seq<char>,
    pub opponent: Seq<char>,
    pub game_type: GameType,
    pub wager: u64,
    pub status: ChallengeStatus,
    pub created_at: u64,
    pub expires_at: u64,
}

impl DeepView for Challenge {
    type V = ChallengeView;

    open spec fn deep_view(&self) -> ChallengeView {
        self.view()
    }
}

impl View for Challenge {
    type V = ChallengeView;

    open spec fn view(&self) -> ChallengeView {
        ChallengeView {
            id: self.id@,
            challenger: self.challenger@,
            opponent: self.opponent@,
            game_type: self.game_type,
            wager: self.wager,
            status: self.status,
            created_at: self.created_at,
            expires_at: self.expires_at,
        }
    }
}

impl Clone for Challenge {
    fn clone(&self) -> (r: Self)
        ensures
            r@ == self@,
    {
        Challenge {
            id: self.id.clone(),
            challenger: self.challenger.clone(),
            opponent: self.opponent.clone(),
            game_type: self.game_type,
            wager: self.wager,
            status: self.status,
            created_at: self.created_at,
            expires_at: self.expires_at,
        }
    }
}

/// Events a deployment may surface to observers; data only, never consumed here.
#[derive(Debug)]
pub enum GameEvent {
    ScoreSubmitted { player: String, game_type: GameType, score: u32 },
    RoomCreated {
        room_id: String,
        game_type: GameType,
        creator: String,
        max_players: u8,
        room_chain_id: String,
    },
    PlayerJoinedRoom { room_id: String, player: String },
    GameEnded { room_id: String, winner: Option<String>, duration_seconds: u64 },
}

/// Every action a client may submit to the hub.
#[derive(Debug)]
pub enum Operation {
    SubmitSnakeScore { score: u32, game_mode: GameMode },
    SubmitTicTacToeResult { won: bool, game_mode: GameMode },
    SubmitSnakeLaddersResult { won: bool, game_mode: GameMode },
    SubmitUnoResult { won: bool, game_mode: GameMode },
    UpdateProfile { username: String, avatar_id: u8 },
    CreateRoom { game_type: GameType, max_players: u8, entry_fee: u64, game_mode: GameMode },
    JoinRoom { room_id: String },
    LeaveRoom { room_id: String },
    MakeMove { room_id: String, move_data: String },
    CloseRoom { room_id: String },
    CreateTournament { name: String, game_type: GameType, max_players: u8 },
    JoinTournament { tournament_id: String },
    StartTournament { tournament_id: String },
    AdvanceTournament { tournament_id: String, match_id: String, winner: String },
    SendFriendRequest { to_address: String },
    AcceptFriendRequest { from_address: String },
    RejectFriendRequest { from_address: String },
    RemoveFriend { friend_address: String },
    CreateChallenge { opponent: String, game_type: GameType, wager: u64 },
    AcceptChallenge { challenge_id: String },
    DeclineChallenge { challenge_id: String },
}

/// Every message exchanged between the hub and its shards.  Shard identities
/// travel as plain strings; the transport layer resolves them to real
/// destinations.
#[derive(Debug)]
pub enum Message {
    RoomCreated { room_id: String, creator: String, game_type: GameType },
    PlayerJoinedRoom { room_id: String, player: String },
    GameMove { room_id: String, player: String, move_data: String },
    GameEnded { room_id: String, winner: Option<String> },
    TournamentStarted { tournament_id: String },
    MatchCompleted { tournament_id: String, match_id: String, winner: String },
    /// Hands a freshly opened shard its room configuration.
    InitializeRoom {
        room_id: String,
        game_type: GameType,
        creator: String,
        max_players: u8,
        creator_chain: String,
    },
    /// The shard's confirmation that it is ready.
    RoomChainReady { room_id: String, creator: String, game_type: GameType, room_chain_id: String },
    /// Tells the shard that a player wants a seat.
    PlayerJoiningRoom { room_id: String, player: String },
    /// Routes one move into the shard.
    ProcessMove { room_id: String, player: String, move_data: String },
    /// The shard's final report: winner and per-player scores.
    GameEndedWithStats {
        room_id: String,
        winner: Option<String>,
        player_stats: Vec<(String, u32)>,
        game_type: GameType,
        duration_seconds: u64,
    },
}

/// Mathematical view of a message.
pub enum MessageView {
    RoomCreated { room_id: Seq<char>, creator: Seq<char>, game_type: GameType },
    PlayerJoinedRoom { room_id: Seq<char>, player: Seq<char> },
    GameMove { room_id: Seq<char>, player: Seq<char>, move_data: Seq<char> },
    GameEnded { room_id: Seq<char>, winner: Option<Seq<char>> },
    TournamentStarted { tournament_id: Seq<char> },
    MatchCompleted { tournament_id: Seq<char>, match_id: Seq<char>, winner: Seq<char> },
    InitializeRoom {
        room_id: Seq<char>,
        game_type: GameType,
        creator: Seq<char>,
        max_players: u8,
        creator_chain: Seq<char>,
    },
    RoomChainReady {
        room_id: Seq<char>,
        creator: Seq<char>,
        game_type: GameType,
        room_chain_id: Seq<char>,
    },
    PlayerJoiningRoom { room_id: Seq<char>, player: Seq<char> },
    ProcessMove { room_id: Seq<char>, player: Seq<char>, move_data: Seq<char> },
    GameEndedWithStats {
        room_id: Seq<char>,
        winner: Option<Seq<char>>,
        player_stats: Seq<(Seq<char>, u32)>,
        game_type: GameType,
        duration_seconds: u64,
    },
}

impl DeepView for Message {
    type V = MessageView;

    open spec fn deep_view(&self) -> MessageView {
        self.view()
    }
}

impl View for Message {
    type V = MessageView;

    open spec fn view(&self) -> MessageView {
        match self {
            Message::RoomCreated { room_id, creator, game_type } => MessageView::RoomCreated {
                room_id: room_id@,
                creator: creator@,
                game_type: *game_type,
            },
            Message::PlayerJoinedRoom { room_id, player } => MessageView::PlayerJoinedRoom {
                room_id: room_id@,
                player: player@,
            },
            Message::GameMove { room_id, player, move_data } => MessageView::GameMove {
                room_id: room_id@,
                player: player@,
                move_data: move_data@,
            },
            Message::GameEnded { room_id, winner } => MessageView::GameEnded {
                room_id: room_id@,
                winner: match winner {
                    Some(w) => Some(w@),
                    None => None,
                },
            },
            Message::TournamentStarted { tournament_id } => MessageView::TournamentStarted {
                tournament_id: tournament_id@,
            },
            Message::MatchCompleted { tournament_id, match_id, winner } => {
                MessageView::MatchCompleted {
                    tournament_id: tournament_id@,
                    match_id: match_id@,
                    winner: winner@,
                }
            },
            Message::InitializeRoom { room_id, game_type, creator, max_players, creator_chain } => {
                MessageView::InitializeRoom {
                    room_id: room_id@,
                    game_type: *game_type,
                    creator: creator@,
                    max_players: *max_players,
                    creator_chain: creator_chain@,
                }
            },
            Message::RoomChainReady { room_id, creator, game_type, room_chain_id } => {
                MessageView::RoomChainReady {
                    room_id: room_id@,
                    creator: creator@,
                    game_type: *game_type,
                    room_chain_id: room_chain_id@,
                }
            },
            Message::PlayerJoiningRoom { room_id, player } => MessageView::PlayerJoiningRoom {
                room_id: room_id@,
                player: player@,
            },
            Message::ProcessMove { room_id, player, move_data } => MessageView::ProcessMove {
                room_id: room_id@,
                player: player@,
                move_data: move_data@,
            },
            Message::GameEndedWithStats {
                room_id,
                winner,
                player_stats,
                game_type,
                duration_seconds,
            } => MessageView::GameEndedWithStats {
                room_id: room_id@,
                winner: match winner {
                    Some(w) => Some(w@),
                    None => None,
                },
                player_stats: player_stats.deep_view(),
                game_type: *game_type,
                duration_seconds: *duration_seconds,
            },
        }
    }
}

/// One message waiting in the outbox, addressed to a shard.
#[derive(Debug)]
pub struct OutboundMessage {
    pub destination: String,
    pub message: Message,
}

/// Mathematical view of an outbound message.
pub struct OutboundView {
    pub destination: Seq<char>,
    pub message: MessageView,
}

impl DeepView for OutboundMessage {
    type V = OutboundView;

    open spec fn deep_view(&self) -> OutboundView {
        self.view()
    }
}

impl View for OutboundMessage {
    type V = OutboundView;

    open spec fn view(&self) -> OutboundView {
        OutboundView { destination: self.destination@, message: self.message@ }
    }
}

/// Parameters of a leaderboard lookup.
#[derive(Debug)]
pub struct LeaderboardQuery {
    pub game_type: Option<GameType>,
    pub limit: Option<u32>,
    pub time_filter: Option<String>,
}

/// Platform-wide counters.
#[derive(Clone, Copy, Debug, PartialEq, Eq, Structural)]
pub struct GlobalStats {
    pub total_players: u64,
    pub total_games: u64,
    pub active_rooms: u32,
    pub active_tournaments: u32,
}

/// Generic acknowledgement of a submitted action.
#[derive(Debug)]
pub struct MutationResponse {
    pub success: bool,
    pub message: String,
}

/// Acknowledgement of a room-creation request.
#[derive(Debug)]
pub struct CreateRoomResponse {
    pub success: bool,
    pub room_id: String,
}

/// Acknowledgement of a submitted move.
#[derive(Debug)]
pub struct MakeMoveResponse {
    pub success: bool,
    pub game_over: bool,
    pub winner: Option<String>,
}

/// Acknowledgement of a tournament-creation request.
#[derive(Debug)]
pub struct CreateTournamentResponse {
    pub success: bool,
    pub tournament_id: String,
}

/// Acknowledgement of a challenge-creation request.
#[derive(Debug)]
pub struct CreateChallengeResponse {
    pub success: bool,
    pub challenge_id: String,
}

/// Acknowledgement of a challenge acceptance.
#[derive(Debug)]
pub struct AcceptChallengeResponse {
    pub success: bool,
    pub room_id: Option<String>,
}

} // verus!
