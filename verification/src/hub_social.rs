//! The hub's handlers for tournaments, the friend graph and wager
//! challenges.

use vstd::prelude::*;

use crate::hub::{station_wf, GameStationState, StationView};
use crate::numstr::{dec_rep, u64_to_string};
use crate::progression::{bump_u64, bumped64, sat_add64, sat_add_u64};
use crate::text::{contains_string, str_eq};
use crate::tournament::{
    advance_tournament_record, brackets_of, generate_tournament_brackets, tournament_advanced,
};
use crate::types::{
    Challenge, ChallengeStatus, ChallengeView, FriendEntry, FriendEntryView, FriendRequest,
    FriendRequestView, GameType, Tournament, TournamentStatus, TournamentView,
};

verus! {

/// How long a challenge stays open, in the platform's microsecond unit.
pub const CHALLENGE_LIFETIME_MICROS: u64 = 86400000000;

/// The requests waiting for a recipient, none when unlisted.
pub open spec fn existing_requests(v: StationView, k: Seq<char>) -> Seq<FriendRequestView> {
    if v.friend_requests.contains_key(k) {
        v.friend_requests[k]
    } else {
        Seq::empty()
    }
}

/// The friend edges of an address, none when unlisted.
pub open spec fn existing_friends(v: StationView, k: Seq<char>) -> Seq<FriendEntryView> {
    if v.friends.contains_key(k) {
        v.friends[k]
    } else {
        Seq::empty()
    }
}

/// Whether somebody already asked.
pub open spec fn has_request(rs: Seq<FriendRequestView>, who: Seq<char>) -> bool {
    exists|i: int| 0 <= i < rs.len() && rs[i].from_address == who
}

/// Whether an address is already a friend.
pub open spec fn has_friend(fs: Seq<FriendEntryView>, who: Seq<char>) -> bool {
    exists|i: int| 0 <= i < fs.len() && fs[i].address == who
}

/// The requests with one sender's requests taken out.
pub open spec fn without_requests_from(
    rs: Seq<FriendRequestView>,
    who: Seq<char>,
) -> Seq<FriendRequestView>
    decreases rs.len(),
{
    if rs.len() == 0 {
        Seq::empty()
    } else {
        let prev = without_requests_from(rs.drop_last(), who);
        if rs.last().from_address == who {
            prev
        } else {
            prev.push(rs.last())
        }
    }
}

/// The friend edges with one address taken out.
pub open spec fn without_friend(fs: Seq<FriendEntryView>, who: Seq<char>) -> Seq<FriendEntryView>
    decreases fs.len(),
{
    if fs.len() == 0 {
        Seq::empty()
    } else {
        let prev = without_friend(fs.drop_last(), who);
        if fs.last().address == who {
            prev
        } else {
            prev.push(fs.last())
        }
    }
}

/// The tournament identifier for a counter value.
pub open spec fn tournament_id_spec(counter: u64) -> Seq<char> {
    seq!['t', 'o', 'u', 'r', 'n', 'a', 'm', 'e', 'n', 't', '-'] + dec_rep(counter as nat)
}

/// The challenge identifier for a counter value.
pub open spec fn challenge_id_spec(counter: u64) -> Seq<char> {
    seq!['c', 'h', 'a', 'l', 'l', 'e', 'n', 'g', 'e', '-'] + dec_rep(counter as nat)
}

/// The store after a tournament is opened for registration.
pub open spec fn tournament_created(
    v: StationView,
    owner: Seq<char>,
    name: Seq<char>,
    gt: GameType,
    max_players: u8,
    ts: u64,
) -> StationView {
    let id = tournament_id_spec(v.tournament_counter);
    let t = TournamentView {
        id: id,
        name: name,
        game_type: gt,
        creator: owner,
        participants: Seq::empty(),
        max_players: max_players,
        status: TournamentStatus::Registration,
        current_round: 0,
        brackets: Seq::empty(),
        created_at: ts,
    };
    StationView {
        tournaments: v.tournaments.insert(id, t),
        tournament_counter: bumped64(v.tournament_counter),
        active_tournament_ids: v.active_tournament_ids.push(id),
        ..v
    }
}

/// The store after a registration attempt: accepted only during
/// registration, for a new participant, under capacity.
pub open spec fn tournament_joined(v: StationView, owner: Seq<char>, tid: Seq<char>) -> StationView {
    if v.tournaments.contains_key(tid) {
        let t = v.tournaments[tid];
        if t.status == TournamentStatus::Registration && !t.participants.contains(owner)
            && t.participants.len() < t.max_players as int {
            StationView {
                tournaments: v.tournaments.insert(
                    tid,
                    TournamentView { participants: t.participants.push(owner), ..t },
                ),
                ..v
            }
        } else {
            v
        }
    } else {
        v
    }
}

/// The store after a start attempt: at least two registered participants
/// begin round one with the pairing the participant order gives.
pub open spec fn tournament_started(v: StationView, tid: Seq<char>) -> StationView {
    if v.tournaments.contains_key(tid) {
        let t = v.tournaments[tid];
        if t.status == TournamentStatus::Registration && t.participants.len() >= 2 {
            StationView {
                tournaments: v.tournaments.insert(
                    tid,
                    TournamentView {
                        status: TournamentStatus::InProgress,
                        current_round: 1,
                        brackets: brackets_of(t.participants),
                        ..t
                    },
                ),
                ..v
            }
        } else {
            v
        }
    } else {
        v
    }
}

/// The store after a match report is applied to a tournament.
pub open spec fn tournament_match_advanced(
    v: StationView,
    tid: Seq<char>,
    mid: Seq<char>,
    winner: Seq<char>,
) -> StationView {
    if v.tournaments.contains_key(tid) {
        StationView {
            tournaments: v.tournaments.insert(
                tid,
                tournament_advanced(v.tournaments[tid], mid, winner),
            ),
            ..v
        }
    } else {
        v
    }
}

/// The store after a friend request is sent: recorded under the
/// recipient unless the sender already has one waiting there.
pub open spec fn friend_request_sent(
    v: StationView,
    owner: Seq<char>,
    to: Seq<char>,
    ts: u64,
) -> StationView {
    let rs = existing_requests(v, to);
    if has_request(rs, owner) {
        v
    } else {
        StationView {
            friend_requests: v.friend_requests.insert(
                to,
                rs.push(FriendRequestView { from_address: owner, timestamp: ts }),
            ),
            ..v
        }
    }
}

/// The store after a request is accepted: the request goes, and the edge
/// is written on both sides, skipping a side that already has it.
pub open spec fn friend_request_accepted(
    v: StationView,
    owner: Seq<char>,
    from: Seq<char>,
    ts: u64,
) -> StationView {
    let v1 = StationView {
        friend_requests: v.friend_requests.insert(
            owner,
            without_requests_from(existing_requests(v, owner), from),
        ),
        ..v
    };
    let own = existing_friends(v1, owner);
    let v2 = if has_friend(own, from) {
        v1
    } else {
        StationView {
            friends: v1.friends.insert(
                owner,
                own.push(FriendEntryView { address: from, added_at: ts }),
            ),
            ..v1
        }
    };
    let theirs = existing_friends(v2, from);
    if has_friend(theirs, owner) {
        v2
    } else {
        StationView {
            friends: v2.friends.insert(
                from,
                theirs.push(FriendEntryView { address: owner, added_at: ts }),
            ),
            ..v2
        }
    }
}

/// The store after a request is rejected: only the request goes.
pub open spec fn friend_request_rejected(
    v: StationView,
    owner: Seq<char>,
    from: Seq<char>,
) -> StationView {
    StationView {
        friend_requests: v.friend_requests.insert(
            owner,
            without_requests_from(existing_requests(v, owner), from),
        ),
        ..v
    }
}

/// The store after a friendship is dissolved on both sides.
pub open spec fn friend_removed(
    v: StationView,
    owner: Seq<char>,
    friend: Seq<char>,
) -> StationView {
    let v1 = StationView {
        friends: v.friends.insert(owner, without_friend(existing_friends(v, owner), friend)),
        ..v
    };
    StationView {
        friends: v1.friends.insert(friend, without_friend(existing_friends(v1, friend), owner)),
        ..v1
    }
}

/// The store after a challenge is issued: pending, expiring one day after
/// its creation.
pub open spec fn challenge_created(
    v: StationView,
    owner: Seq<char>,
    opponent: Seq<char>,
    gt: GameType,
    wager: u64,
    ts: u64,
) -> StationView {
    let id = challenge_id_spec(v.challenge_counter);
    let c = ChallengeView {
        id: id,
        challenger: owner,
        opponent: opponent,
        game_type: gt,
        wager: wager,
        status: ChallengeStatus::Pending,
        created_at: ts,
        expires_at: sat_add64(ts, CHALLENGE_LIFETIME_MICROS),
    };
    StationView {
        challenges: v.challenges.insert(id, c),
        challenge_counter: bumped64(v.challenge_counter),
        ..v
    }
}

/// The store after an acceptance attempt: only the named opponent, only
/// while pending, and only before the expiry.
pub open spec fn challenge_accepted(
    v: StationView,
    owner: Seq<char>,
    cid: Seq<char>,
    ts: u64,
) -> StationView {
    if v.challenges.contains_key(cid) {
        let c = v.challenges[cid];
        if c.opponent == owner && c.status == ChallengeStatus::Pending && ts < c.expires_at {
            StationView {
                challenges: v.challenges.insert(
                    cid,
                    ChallengeView { status: ChallengeStatus::Accepted, ..c },
                ),
                ..v
            }
        } else {
            v
        }
    } else {
        v
    }
}

/// The store after a decline attempt: only a pending challenge moves.
pub open spec fn challenge_declined(v: StationView, cid: Seq<char>) -> StationView {
    if v.challenges.contains_key(cid) {
        let c = v.challenges[cid];
        if c.status == ChallengeStatus::Pending {
            StationView {
                challenges: v.challenges.insert(
                    cid,
                    ChallengeView { status: ChallengeStatus::Declined, ..c },
                ),
                ..v
            }
        } else {
            v
        }
    } else {
        v
    }
}

/// Keeps only the requests not sent by `who`.
fn filter_requests(rs: &Vec<FriendRequest>, who: &str) -> (r: Vec<FriendRequest>)
    ensures
        r.deep_view() == without_requests_from(rs.deep_view(), who@),
{
    let n = rs.len();
    let mut out: Vec<FriendRequest> = Vec::new();
    let mut i: usize = 0;
    proof {
        assert(out.deep_view() =~= without_requests_from(rs.deep_view().take(0), who@));
    }
    while i < n
        invariant
            n == rs.len(),
            i <= n,
            out.deep_view() == without_requests_from(rs.deep_view().take(i as int), who@),
        decreases n - i,
    {
        proof {
            let rv = rs.deep_view();
            assert(rv.take(i + 1).drop_last() =~= rv.take(i as int));
            assert(rv.take(i + 1).last() == rv[i as int]);
            assert(rv[i as int] == rs@[i as int]@);
        }
        if !str_eq(rs[i].from_address.as_str(), who) {
            let ghost pre = out.deep_view();
            out.push(rs[i].clone());
            proof {
                assert(out.deep_view() =~= pre.push(rs.deep_view()[i as int]));
            }
        }
        i = i + 1;
    }
    proof {
        assert(rs.deep_view().take(n as int) =~= rs.deep_view());
    }
    out
}

/// Keeps only the edges not naming `who`.
fn filter_friends(fs: &Vec<FriendEntry>, who: &str) -> (r: Vec<FriendEntry>)
    ensures
        r.deep_view() == without_friend(fs.deep_view(), who@),
{
    let n = fs.len();
    let mut out: Vec<FriendEntry> = Vec::new();
    let mut i: usize = 0;
    proof {
        assert(out.deep_view() =~= without_friend(fs.deep_view().take(0), who@));
    }
    while i < n
        invariant
            n == fs.len(),
            i <= n,
            out.deep_view() == without_friend(fs.deep_view().take(i as int), who@),
        decreases n - i,
    {
        proof {
            let fv = fs.deep_view();
            assert(fv.take(i + 1).drop_last() =~= fv.take(i as int));
            assert(fv.take(i + 1).last() == fv[i as int]);
            assert(fv[i as int] == fs@[i as int]@);
        }
        if !str_eq(fs[i].address.as_str(), who) {
            let ghost pre = out.deep_view();
            out.push(fs[i].clone());
            proof {
                assert(out.deep_view() =~= pre.push(fs.deep_view()[i as int]));
            }
        }
        i = i + 1;
    }
    proof {
        assert(fs.deep_view().take(n as int) =~= fs.deep_view());
    }
    out
}

/// Whether some request in the list came from `who`.
fn any_request_from(rs: &Vec<FriendRequest>, who: &str) -> (r: bool)
    ensures
        r == has_request(rs.deep_view(), who@),
{
    let n = rs.len();
    let mut i: usize = 0;
    while i < n
        invariant
            n == rs.len(),
            i <= n,
            forall|j: int| 0 <= j < i ==> rs.deep_view()[j].from_address != who@,
        decreases n - i,
    {
        if str_eq(rs[i].from_address.as_str(), who) {
            assert(rs.deep_view()[i as int].from_address == who@);
            return true;
        }
        i = i + 1;
    }
    false
}

/// Whether some edge in the list names `who`.
fn any_friend(fs: &Vec<FriendEntry>, who: &str) -> (r: bool)
    ensures
        r == has_friend(fs.deep_view(), who@),
{
    let n = fs.len();
    let mut i: usize = 0;
    while i < n
        invariant
            n == fs.len(),
            i <= n,
            forall|j: int| 0 <= j < i ==> fs.deep_view()[j].address != who@,
        decreases n - i,
    {
        if str_eq(fs[i].address.as_str(), who) {
            assert(fs.deep_view()[i as int].address == who@);
            return true;
        }
        i = i + 1;
    }
    false
}

impl GameStationState {
    /// Opens a tournament for registration, per `tournament_created`.
    pub fn handle_create_tournament(
        &mut self,
        owner: String,
        name: String,
        game_type: GameType,
        max_players: u8,
        timestamp: u64,
    )
        requires
            station_wf(old(self)),
        ensures
            station_wf(final(self)),
            final(self)@ == tournament_created(
                old(self)@,
                owner@,
                name@,
                game_type,
                max_players,
                timestamp,
            ),
    {
        let mut id = String::from_str("tournament-");
        let num = u64_to_string(self.tournament_counter);
        id.append(num.as_str());
        proof {
            reveal_strlit("tournament-");
            assert(id@ =~= tournament_id_spec(self.tournament_counter));
        }
        let t = Tournament {
            id: id.clone(),
            name,
            game_type,
            creator: owner,
            participants: Vec::new(),
            max_players,
            status: TournamentStatus::Registration,
            current_round: 0,
            brackets: Vec::new(),
            created_at: timestamp,
        };
        proof {
            assert(t@.participants =~= Seq::<Seq<char>>::empty());
            assert(t@.brackets =~= Seq::<crate::types::BracketView>::empty());
        }
        self.tournaments.insert(id.clone(), t);
        self.tournament_counter = bump_u64(self.tournament_counter);
        let ghost pre = self.active_tournament_ids.deep_view();
        self.active_tournament_ids.push(id);
        proof {
            assert(self.active_tournament_ids.deep_view() =~= pre.push(
                tournament_id_spec(old(self)@.tournament_counter),
            ));
        }
    }

    /// Registers a participant, per `tournament_joined`.
    pub fn handle_join_tournament(&mut self, owner: String, tournament_id: String)
        requires
            station_wf(old(self)),
        ensures
            station_wf(final(self)),
            final(self)@ == tournament_joined(old(self)@, owner@, tournament_id@),
    {
        let t_opt = self.tournaments.get(&tournament_id);
        match t_opt {
            Some(t0) => {
                let mut t = t0.clone();
                if matches!(t.status, TournamentStatus::Registration) && !contains_string(
                    &t.participants,
                    owner.as_str(),
                ) && t.participants.len() < t.max_players as usize {
                    t.participants.push(owner);
                    proof {
                        assert(t@.participants =~= old(
                            self,
                        )@.tournaments[tournament_id@].participants.push(owner@));
                    }
                    self.tournaments.insert(tournament_id, t);
                }
            },
            None => {},
        }
    }

    /// Starts a tournament, per `tournament_started`.
    pub fn handle_start_tournament(&mut self, tournament_id: String)
        requires
            station_wf(old(self)),
        ensures
            station_wf(final(self)),
            final(self)@ == tournament_started(old(self)@, tournament_id@),
    {
        let t_opt = self.tournaments.get(&tournament_id);
        match t_opt {
            Some(t0) => {
                let mut t = t0.clone();
                if matches!(t.status, TournamentStatus::Registration) && t.participants.len()
                    >= 2 {
                    t.status = TournamentStatus::InProgress;
                    t.current_round = 1;
                    t.brackets = generate_tournament_brackets(&t.participants);
                    self.tournaments.insert(tournament_id, t);
                }
            },
            None => {},
        }
    }

    /// Applies a match report, per `tournament_match_advanced`.
    pub fn handle_advance_tournament(
        &mut self,
        tournament_id: String,
        match_id: String,
        winner: String,
    )
        requires
            station_wf(old(self)),
        ensures
            station_wf(final(self)),
            final(self)@ == tournament_match_advanced(
                old(self)@,
                tournament_id@,
                match_id@,
                winner@,
            ),
    {
        let t_opt = self.tournaments.get(&tournament_id);
        match t_opt {
            Some(t0) => {
                let mut t = t0.clone();
                advance_tournament_record(&mut t, match_id.as_str(), winner.as_str());
                self.tournaments.insert(tournament_id, t);
            },
            None => {},
        }
    }

    /// Files a friend request, per `friend_request_sent`.
    pub fn handle_send_friend_request(&mut self, owner: String, to_address: String, timestamp: u64)
        requires
            station_wf(old(self)),
        ensures
            station_wf(final(self)),
            final(self)@ == friend_request_sent(old(self)@, owner@, to_address@, timestamp),
    {
        let mut requests = match self.friend_requests.get(&to_address) {
            Some(rs) => crate::types::clone_request_vec(rs),
            None => Vec::new(),
        };
        proof {
            assert(requests.deep_view() =~= existing_requests(self@, to_address@));
        }
        if !any_request_from(&requests, owner.as_str()) {
            let ghost pre = requests.deep_view();
            requests.push(FriendRequest { from_address: owner, timestamp });
            proof {
                assert(requests.deep_view() =~= pre.push(
                    FriendRequestView { from_address: owner@, timestamp: timestamp },
                ));
            }
            self.friend_requests.insert(to_address, requests);
        }
    }

    /// Accepts a friend request, per `friend_request_accepted`.
    pub fn handle_accept_friend_request(
        &mut self,
        owner: String,
        from_address: String,
        timestamp: u64,
    )
        requires
            station_wf(old(self)),
        ensures
            station_wf(final(self)),
            final(self)@ == friend_request_accepted(old(self)@, owner@, from_address@, timestamp),
    {
        let requests = match self.friend_requests.get(&owner) {
            Some(rs) => filter_requests(rs, from_address.as_str()),
            None => Vec::new(),
        };
        proof {
            assert(Seq::<FriendRequestView>::empty() =~= without_requests_from(
                Seq::<FriendRequestView>::empty(),
                from_address@,
            ));
            assert(requests.deep_view() =~= without_requests_from(
                existing_requests(self@, owner@),
                from_address@,
            ));
        }
        self.friend_requests.insert(owner.clone(), requests);
        let mut own_friends = match self.friends.get(&owner) {
            Some(fs) => crate::types::clone_friend_vec(fs),
            None => Vec::new(),
        };
        proof {
            assert(own_friends.deep_view() =~= existing_friends(self@, owner@));
        }
        if !any_friend(&own_friends, from_address.as_str()) {
            let ghost pre = own_friends.deep_view();
            own_friends.push(FriendEntry { address: from_address.clone(), added_at: timestamp });
            proof {
                assert(own_friends.deep_view() =~= pre.push(
                    FriendEntryView { address: from_address@, added_at: timestamp },
                ));
            }
            self.friends.insert(owner.clone(), own_friends);
        }
        let mut their_friends = match self.friends.get(&from_address) {
            Some(fs) => crate::types::clone_friend_vec(fs),
            None => Vec::new(),
        };
        proof {
            assert(their_friends.deep_view() =~= existing_friends(self@, from_address@));
        }
        if !any_friend(&their_friends, owner.as_str()) {
            let ghost pre = their_friends.deep_view();
            their_friends.push(FriendEntry { address: owner.clone(), added_at: timestamp });
            proof {
                assert(their_friends.deep_view() =~= pre.push(
                    FriendEntryView { address: owner@, added_at: timestamp },
                ));
            }
            self.friends.insert(from_address, their_friends);
        }
    }

    /// Rejects a friend request, per `friend_request_rejected`.
    pub fn handle_reject_friend_request(&mut self, owner: String, from_address: String)
        requires
            station_wf(old(self)),
        ensures
            station_wf(final(self)),
            final(self)@ == friend_request_rejected(old(self)@, owner@, from_address@),
    {
        let requests = match self.friend_requests.get(&owner) {
            Some(rs) => filter_requests(rs, from_address.as_str()),
            None => Vec::new(),
        };
        proof {
            assert(Seq::<FriendRequestView>::empty() =~= without_requests_from(
                Seq::<FriendRequestView>::empty(),
                from_address@,
            ));
            assert(requests.deep_view() =~= without_requests_from(
                existing_requests(self@, owner@),
                from_address@,
            ));
        }
        self.friend_requests.insert(owner, requests);
    }

    /// Dissolves a friendship on both sides, per `friend_removed`.
    pub fn handle_remove_friend(&mut self, owner: String, friend_address: String)
        requires
            station_wf(old(self)),
        ensures
            station_wf(final(self)),
            final(self)@ == friend_removed(old(self)@, owner@, friend_address@),
    {
        let own_friends = match self.friends.get(&owner) {
            Some(fs) => filter_friends(fs, friend_address.as_str()),
            None => Vec::new(),
        };
        proof {
            assert(Seq::<FriendEntryView>::empty() =~= without_friend(
                Seq::<FriendEntryView>::empty(),
                friend_address@,
            ));
            assert(own_friends.deep_view() =~= without_friend(
                existing_friends(self@, owner@),
                friend_address@,
            ));
        }
        self.friends.insert(owner.clone(), own_friends);
        let their_friends = match self.friends.get(&friend_address) {
            Some(fs) => filter_friends(fs, owner.as_str()),
            None => Vec::new(),
        };
        proof {
            assert(Seq::<FriendEntryView>::empty() =~= without_friend(
                Seq::<FriendEntryView>::empty(),
                owner@,
            ));
            assert(their_friends.deep_view() =~= without_friend(
                existing_friends(self@, friend_address@),
                owner@,
            ));
        }
        self.friends.insert(friend_address, their_friends);
    }

    /// Issues a wager challenge, per `challenge_created`.
    pub fn handle_create_challenge(
        &mut self,
        owner: String,
        opponent: String,
        game_type: GameType,
        wager: u64,
        timestamp: u64,
    )
        requires
            station_wf(old(self)),
        ensures
            station_wf(final(self)),
            final(self)@ == challenge_created(
                old(self)@,
                owner@,
                opponent@,
                game_type,
                wager,
                timestamp,
            ),
    {
        let mut id = String::from_str("challenge-");
        let num = u64_to_string(self.challenge_counter);
        id.append(num.as_str());
        proof {
            reveal_strlit("challenge-");
            assert(id@ =~= challenge_id_spec(self.challenge_counter));
        }
        let c = Challenge {
            id: id.clone(),
            challenger: owner,
            opponent,
            game_type,
            wager,
            status: ChallengeStatus::Pending,
            created_at: timestamp,
            expires_at: sat_add_u64(timestamp, CHALLENGE_LIFETIME_MICROS),
        };
        self.challenges.insert(id, c);
        self.challenge_counter = bump_u64(self.challenge_counter);
    }

    /// Accepts a challenge, per `challenge_accepted`.
    pub fn handle_accept_challenge(&mut self, owner: String, challenge_id: String, timestamp: u64)
        requires
            station_wf(old(self)),
        ensures
            station_wf(final(self)),
            final(self)@ == challenge_accepted(old(self)@, owner@, challenge_id@, timestamp),
    {
        let c_opt = self.challenges.get(&challenge_id);
        match c_opt {
            Some(c0) => {
                let mut c = c0.clone();
                if str_eq(c.opponent.as_str(), owner.as_str()) && matches!(
                    c.status,
                    ChallengeStatus::Pending,
                ) && timestamp < c.expires_at {
                    c.status = ChallengeStatus::Accepted;
                    self.challenges.insert(challenge_id, c);
                }
            },
            None => {},
        }
    }

    /// Declines a challenge, per `challenge_declined`.
    pub fn handle_decline_challenge(&mut self, challenge_id: String)
        requires
            station_wf(old(self)),
        ensures
            station_wf(final(self)),
            final(self)@ == challenge_declined(old(self)@, challenge_id@),
    {
        let c_opt = self.challenges.get(&challenge_id);
        match c_opt {
            Some(c0) => {
                let mut c = c0.clone();
                if matches!(c.status, ChallengeStatus::Pending) {
                    c.status = ChallengeStatus::Declined;
                    self.challenges.insert(challenge_id, c);
                }
            },
            None => {},
        }
    }
}


/// Acceptance at or after a challenge's expiry is rejected, even while
/// the challenge still stands pending.
pub proof fn lemma_expired_challenge_rejected(
    v: StationView,
    owner: Seq<char>,
    cid: Seq<char>,
    ts: u64,
)
    requires
        v.challenges.contains_key(cid),
        ts >= v.challenges[cid].expires_at,
    ensures
        challenge_accepted(v, owner, cid, ts) == v,
{
}

/// A challenge issued at some time cannot be accepted strictly after
/// that time plus the challenge lifetime, by anyone.
pub proof fn lemma_challenge_expiry(
    v: StationView,
    challenger: Seq<char>,
    opponent: Seq<char>,
    gt: GameType,
    wager: u64,
    t0: u64,
    who: Seq<char>,
    ts: u64,
)
    requires
        ts > t0 + CHALLENGE_LIFETIME_MICROS,
    ensures
        ({
            let v1 = challenge_created(v, challenger, opponent, gt, wager, t0);
            challenge_accepted(v1, who, challenge_id_spec(v.challenge_counter), ts) == v1
        }),
{
}

} // verus!
