//! Read-only views over the hub's store, as the query layer consumes
//! them: totals, profiles, room and tournament listings, social records
//! and leaderboards.

use vstd::prelude::*;

use crate::hub::{game_key, game_key_spec, station_wf, GameStationState, StationView};
use crate::leaderboard::clone_entry_vec;
use crate::types::{
    clone_friend_vec, clone_request_vec, clone_string_vec, Challenge, FriendEntry, FriendRequest,
    GameRoom, GameType, GlobalStats, LeaderboardEntry, RoomStatus, RoomView, Tournament,
    TournamentView, UserProfile,
};

verus! {

/// The active rooms that the directory can actually resolve, in index
/// order.
pub open spec fn loaded_rooms(v: StationView, ids: Seq<Seq<char>>) -> Seq<RoomView>
    decreases ids.len(),
{
    if ids.len() == 0 {
        Seq::empty()
    } else {
        let prev = loaded_rooms(v, ids.drop_last());
        if v.rooms.contains_key(ids.last()) {
            prev.push(v.rooms[ids.last()])
        } else {
            prev
        }
    }
}

/// The loaded rooms that are still open or playing.
pub open spec fn listed_rooms(rs: Seq<RoomView>) -> Seq<RoomView>
    decreases rs.len(),
{
    if rs.len() == 0 {
        Seq::empty()
    } else {
        let prev = listed_rooms(rs.drop_last());
        if rs.last().status == RoomStatus::Waiting || rs.last().status == RoomStatus::InProgress {
            prev.push(rs.last())
        } else {
            prev
        }
    }
}

/// The active tournaments that the directory can actually resolve.
pub open spec fn loaded_tournaments(v: StationView, ids: Seq<Seq<char>>) -> Seq<TournamentView>
    decreases ids.len(),
{
    if ids.len() == 0 {
        Seq::empty()
    } else {
        let prev = loaded_tournaments(v, ids.drop_last());
        if v.tournaments.contains_key(ids.last()) {
            prev.push(v.tournaments[ids.last()])
        } else {
            prev
        }
    }
}

impl GameStationState {
    /// How many games the platform has counted.
    pub fn total_games(&self) -> (r: u64)
        ensures
            r == self@.total_games,
    {
        self.total_games
    }

    /// How many players the platform has counted.
    pub fn total_players(&self) -> (r: u64)
        ensures
            r == self@.total_players,
    {
        self.total_players
    }

    /// The stored profile of an address, if any.
    pub fn user_profile(&self, address: &String) -> (r: Option<UserProfile>)
        requires
            station_wf(self),
        ensures
            match r {
                Some(p) => self@.users.contains_key(address@) && p@ == self@.users[address@],
                None => !self@.users.contains_key(address@),
            },
    {
        match self.users.get(address) {
            Some(p) => Some(p.clone()),
            None => None,
        }
    }

    /// The stored arcade high score of an address, if any.
    pub fn snake_high_score(&self, address: &String) -> (r: Option<u32>)
        requires
            station_wf(self),
        ensures
            match r {
                Some(s) => self@.snake_high_scores.contains_key(address@) && s
                    == self@.snake_high_scores[address@],
                None => !self@.snake_high_scores.contains_key(address@),
            },
    {
        match self.snake_high_scores.get(address) {
            Some(s) => Some(*s),
            None => None,
        }
    }

    /// Every room on the active index that resolves, open or playing.
    pub fn active_rooms(&self) -> (r: Vec<GameRoom>)
        requires
            station_wf(self),
        ensures
            r.deep_view() == listed_rooms(loaded_rooms(self@, self@.active_room_ids)),
    {
        let n = self.active_room_ids.len();
        let mut out: Vec<GameRoom> = Vec::new();
        let mut i: usize = 0;
        proof {
            assert(self@.active_room_ids.take(0) =~= Seq::<Seq<char>>::empty());
            assert(out.deep_view() =~= listed_rooms(
                loaded_rooms(self@, self@.active_room_ids.take(0)),
            ));
        }
        while i < n
            invariant
                station_wf(self),
                n == self.active_room_ids.len(),
                i <= n,
                out.deep_view() == listed_rooms(
                    loaded_rooms(self@, self@.active_room_ids.take(i as int)),
                ),
            decreases n - i,
        {
            proof {
                let ids = self@.active_room_ids;
                assert(ids.take(i + 1).drop_last() =~= ids.take(i as int));
                assert(ids.take(i + 1).last() == ids[i as int]);
                assert(ids[i as int] == self.active_room_ids@[i as int]@);
            }
            let ghost lr = loaded_rooms(self@, self@.active_room_ids.take(i as int));
            match self.rooms.get(&self.active_room_ids[i]) {
                Some(room) => {
                    proof {
                        assert(loaded_rooms(self@, self@.active_room_ids.take(i + 1)) == lr.push(
                            room.deep_view(),
                        ));
                        assert(lr.push(room.deep_view()).drop_last() =~= lr);
                    }
                    if matches!(room.status, RoomStatus::Waiting)
                        || matches!(room.status, RoomStatus::InProgress) {
                        let ghost pre = out.deep_view();
                        out.push(room.clone());
                        proof {
                            assert(out.deep_view() =~= pre.push(room.deep_view()));
                        }
                    }
                },
                None => {},
            }
            i = i + 1;
        }
        proof {
            assert(self@.active_room_ids.take(n as int) =~= self@.active_room_ids);
        }
        out
    }

    /// The room stored under an id, if any.
    pub fn room(&self, room_id: &String) -> (r: Option<GameRoom>)
        requires
            station_wf(self),
        ensures
            match r {
                Some(room) => self@.rooms.contains_key(room_id@) && room@
                    == self@.rooms[room_id@],
                None => !self@.rooms.contains_key(room_id@),
            },
    {
        match self.rooms.get(room_id) {
            Some(room) => Some(room.clone()),
            None => None,
        }
    }

    /// Every tournament on the active index that resolves.
    pub fn active_tournaments(&self) -> (r: Vec<Tournament>)
        requires
            station_wf(self),
        ensures
            r.deep_view() == loaded_tournaments(self@, self@.active_tournament_ids),
    {
        let n = self.active_tournament_ids.len();
        let mut out: Vec<Tournament> = Vec::new();
        let mut i: usize = 0;
        proof {
            assert(self@.active_tournament_ids.take(0) =~= Seq::<Seq<char>>::empty());
            assert(out.deep_view() =~= loaded_tournaments(
                self@,
                self@.active_tournament_ids.take(0),
            ));
        }
        while i < n
            invariant
                station_wf(self),
                n == self.active_tournament_ids.len(),
                i <= n,
                out.deep_view() == loaded_tournaments(
                    self@,
                    self@.active_tournament_ids.take(i as int),
                ),
            decreases n - i,
        {
            proof {
                let ids = self@.active_tournament_ids;
                assert(ids.take(i + 1).drop_last() =~= ids.take(i as int));
                assert(ids.take(i + 1).last() == ids[i as int]);
                assert(ids[i as int] == self.active_tournament_ids@[i as int]@);
            }
            match self.tournaments.get(&self.active_tournament_ids[i]) {
                Some(t) => {
                    let ghost pre = out.deep_view();
                    out.push(t.clone());
                    proof {
                        assert(out.deep_view() =~= pre.push(t.deep_view()));
                    }
                },
                None => {},
            }
            i = i + 1;
        }
        proof {
            assert(self@.active_tournament_ids.take(n as int) =~= self@.active_tournament_ids);
        }
        out
    }

    /// The tournament stored under an id, if any.
    pub fn tournament(&self, tournament_id: &String) -> (r: Option<Tournament>)
        requires
            station_wf(self),
        ensures
            match r {
                Some(t) => self@.tournaments.contains_key(tournament_id@) && t@
                    == self@.tournaments[tournament_id@],
                None => !self@.tournaments.contains_key(tournament_id@),
            },
    {
        match self.tournaments.get(tournament_id) {
            Some(t) => Some(t.clone()),
            None => None,
        }
    }

    /// The friend list of an address, empty when unlisted.
    pub fn friends(&self, address: &String) -> (r: Vec<FriendEntry>)
        requires
            station_wf(self),
        ensures
            r.deep_view() == crate::hub_social::existing_friends(self@, address@),
    {
        match self.friends.get(address) {
            Some(fs) => clone_friend_vec(fs),
            None => {
                let r: Vec<FriendEntry> = Vec::new();
                proof {
                    assert(r.deep_view() =~= Seq::<crate::types::FriendEntryView>::empty());
                }
                r
            },
        }
    }

    /// The pending requests of an address, empty when unlisted.
    pub fn friend_requests(&self, address: &String) -> (r: Vec<FriendRequest>)
        requires
            station_wf(self),
        ensures
            r.deep_view() == crate::hub_social::existing_requests(self@, address@),
    {
        match self.friend_requests.get(address) {
            Some(rs) => clone_request_vec(rs),
            None => {
                let r: Vec<FriendRequest> = Vec::new();
                proof {
                    assert(r.deep_view() =~= Seq::<crate::types::FriendRequestView>::empty());
                }
                r
            },
        }
    }

    /// The challenge stored under an id, if any.
    pub fn challenge(&self, challenge_id: &String) -> (r: Option<Challenge>)
        requires
            station_wf(self),
        ensures
            match r {
                Some(c) => self@.challenges.contains_key(challenge_id@) && c@
                    == self@.challenges[challenge_id@],
                None => !self@.challenges.contains_key(challenge_id@),
            },
    {
        match self.challenges.get(challenge_id) {
            Some(c) => Some(c.clone()),
            None => None,
        }
    }

    /// The leaderboard of a game, cut to the caller's limit (10 when
    /// none is given).
    pub fn leaderboard(&self, game_type: GameType, limit: Option<u32>) -> (r: Vec<
        LeaderboardEntry,
    >)
        requires
            station_wf(self),
        ensures
            ({
                let full = crate::hub::existing_board(self@, game_key_spec(game_type));
                let cut = (match limit {
                    Some(l) => l as int,
                    None => 10int,
                });
                r.deep_view() == (if full.len() <= cut {
                    full
                } else {
                    full.take(cut)
                })
            }),
    {
        let key = game_key(game_type);
        let mut entries = match self.leaderboards.get(&key) {
            Some(b) => clone_entry_vec(b),
            None => Vec::new(),
        };
        proof {
            assert(entries.deep_view() =~= crate::hub::existing_board(
                self@,
                game_key_spec(game_type),
            ));
        }
        let cut: usize = match limit {
            Some(l) => l as usize,
            None => 10,
        };
        let ghost full = entries.deep_view();
        if entries.len() > cut {
            entries.truncate(cut);
            proof {
                assert(entries.deep_view() =~= full.take(cut as int));
            }
        }
        entries
    }

    /// The shard an active room runs on, if one is mapped.
    pub fn room_chain_id(&self, room_id: &String) -> (r: Option<String>)
        requires
            station_wf(self),
        ensures
            match r {
                Some(c) => self@.room_chains.contains_key(room_id@) && c@
                    == self@.room_chains[room_id@],
                None => !self@.room_chains.contains_key(room_id@),
            },
    {
        match self.room_chains.get(room_id) {
            Some(c) => Some(c.clone()),
            None => None,
        }
    }

    /// Platform-wide counters: totals and how much of the active index
    /// resolves right now.
    pub fn global_stats(&self) -> (r: GlobalStats)
        requires
            station_wf(self),
        ensures
            r.total_games == self@.total_games,
            r.total_players == self@.total_players,
            r.active_rooms as int == loaded_rooms(self@, self@.active_room_ids).len() as int
                % 0x100000000,
            r.active_tournaments as int == loaded_tournaments(
                self@,
                self@.active_tournament_ids,
            ).len() as int % 0x100000000,
    {
        let n_rooms = self.count_loaded_rooms();
        let n_tournaments = self.count_loaded_tournaments();
        GlobalStats {
            total_players: self.total_players,
            total_games: self.total_games,
            active_rooms: n_rooms,
            active_tournaments: n_tournaments,
        }
    }

    /// Counts the active room ids that resolve, wrapping as a 32-bit
    /// counter would.
    fn count_loaded_rooms(&self) -> (r: u32)
        requires
            station_wf(self),
        ensures
            r as int == loaded_rooms(self@, self@.active_room_ids).len() as int % 0x100000000,
    {
        let n = self.active_room_ids.len();
        let mut count: u32 = 0;
        let mut i: usize = 0;
        proof {
            assert(self@.active_room_ids.take(0) =~= Seq::<Seq<char>>::empty());
        }
        while i < n
            invariant
                station_wf(self),
                n == self.active_room_ids.len(),
                i <= n,
                count as int == loaded_rooms(self@, self@.active_room_ids.take(i as int)).len()
                    as int % 0x100000000,
            decreases n - i,
        {
            proof {
                let ids = self@.active_room_ids;
                assert(ids.take(i + 1).drop_last() =~= ids.take(i as int));
                assert(ids.take(i + 1).last() == ids[i as int]);
                assert(ids[i as int] == self.active_room_ids@[i as int]@);
            }
            if self.rooms.contains_key(&self.active_room_ids[i]) {
                if count == u32::MAX {
                    count = 0;
                } else {
                    count = count + 1;
                }
            }
            i = i + 1;
        }
        proof {
            assert(self@.active_room_ids.take(n as int) =~= self@.active_room_ids);
        }
        count
    }

    /// Counts the active tournament ids that resolve, wrapping as a
    /// 32-bit counter would.
    fn count_loaded_tournaments(&self) -> (r: u32)
        requires
            station_wf(self),
        ensures
            r as int == loaded_tournaments(self@, self@.active_tournament_ids).len() as int
                % 0x100000000,
    {
        let n = self.active_tournament_ids.len();
        let mut count: u32 = 0;
        let mut i: usize = 0;
        proof {
            assert(self@.active_tournament_ids.take(0) =~= Seq::<Seq<char>>::empty());
        }
        while i < n
            invariant
                station_wf(self),
                n == self.active_tournament_ids.len(),
                i <= n,
                count as int == loaded_tournaments(
                    self@,
                    self@.active_tournament_ids.take(i as int),
                ).len() as int % 0x100000000,
            decreases n - i,
        {
            proof {
                let ids = self@.active_tournament_ids;
                assert(ids.take(i + 1).drop_last() =~= ids.take(i as int));
                assert(ids.take(i + 1).last() == ids[i as int]);
                assert(ids[i as int] == self.active_tournament_ids@[i as int]@);
            }
            if self.tournaments.contains_key(&self.active_tournament_ids[i]) {
                if count == u32::MAX {
                    count = 0;
                } else {
                    count = count + 1;
                }
            }
            i = i + 1;
        }
        proof {
            assert(self@.active_tournament_ids.take(n as int) =~= self@.active_tournament_ids);
        }
        count
    }

    /// The challenges an address is on record for, resolved through the
    /// per-user id index.
    pub fn challenges(&self, address: &String) -> (r: Vec<Challenge>)
        requires
            station_wf(self),
        ensures
            r.deep_view() == loaded_challenges(
                self@,
                existing_user_challenges(self@, address@),
            ),
    {
        let ids = match self.user_challenges.get(address) {
            Some(l) => clone_string_vec(l),
            None => Vec::new(),
        };
        proof {
            assert(ids.deep_view() =~= existing_user_challenges(self@, address@));
        }
        let n = ids.len();
        let mut out: Vec<Challenge> = Vec::new();
        let mut i: usize = 0;
        proof {
            assert(ids.deep_view().take(0) =~= Seq::<Seq<char>>::empty());
            assert(out.deep_view() =~= loaded_challenges(self@, ids.deep_view().take(0)));
        }
        while i < n
            invariant
                station_wf(self),
                n == ids.len(),
                i <= n,
                out.deep_view() == loaded_challenges(self@, ids.deep_view().take(i as int)),
            decreases n - i,
        {
            proof {
                let iv = ids.deep_view();
                assert(iv.take(i + 1).drop_last() =~= iv.take(i as int));
                assert(iv.take(i + 1).last() == iv[i as int]);
                assert(iv[i as int] == ids@[i as int]@);
            }
            match self.challenges.get(&ids[i]) {
                Some(c) => {
                    let ghost pre = out.deep_view();
                    out.push(c.clone());
                    proof {
                        assert(out.deep_view() =~= pre.push(c.deep_view()));
                    }
                },
                None => {},
            }
            i = i + 1;
        }
        proof {
            assert(ids.deep_view().take(n as int) =~= ids.deep_view());
        }
        out
    }
}

/// The challenge ids recorded for an address, none when unlisted.
pub open spec fn existing_user_challenges(v: StationView, k: Seq<char>) -> Seq<Seq<char>> {
    if v.user_challenges.contains_key(k) {
        v.user_challenges[k]
    } else {
        Seq::empty()
    }
}

/// The challenges a list of ids resolves to, in order.
pub open spec fn loaded_challenges(v: StationView, ids: Seq<Seq<char>>) -> Seq<
    crate::types::ChallengeView,
>
    decreases ids.len(),
{
    if ids.len() == 0 {
        Seq::empty()
    } else {
        let prev = loaded_challenges(v, ids.drop_last());
        if v.challenges.contains_key(ids.last()) {
            prev.push(v.challenges[ids.last()])
        } else {
            prev
        }
    }
}

} // verus!
