//! Player progression: per-game counters, experience awards and repeated
//! leveling.
//!
//! Leveling subtracts `level * 1000` from the accumulated experience and
//! increments the level, as often as the experience allows; several levels
//! may be gained from one award.  Counters and experience saturate at
//! their type's maximum instead of overflowing, and the level sticks at
//! `u32::MAX`; no realistic play reaches any of these rails.

use vstd::prelude::*;

use crate::types::{GameStats, ProfileView, UserProfile};

verus! {

/// A counter one higher, stuck at the maximum.
pub open spec fn bumped32(x: u32) -> u32 {
    if x < u32::MAX {
        (x + 1) as u32
    } else {
        x
    }
}

/// A counter one higher, stuck at the maximum.
pub open spec fn bumped64(x: u64) -> u64 {
    if x < u64::MAX {
        (x + 1) as u64
    } else {
        x
    }
}

/// Saturating 64-bit addition.
pub open spec fn sat_add64(x: u64, y: u64) -> u64 {
    if x + y <= u64::MAX {
        (x + y) as u64
    } else {
        u64::MAX
    }
}

pub fn bump_u32(x: u32) -> (r: u32)
    ensures
        r == bumped32(x),
{
    if x < u32::MAX {
        x + 1
    } else {
        x
    }
}

pub fn bump_u64(x: u64) -> (r: u64)
    ensures
        r == bumped64(x),
{
    if x < u64::MAX {
        x + 1
    } else {
        x
    }
}

pub fn sat_add_u64(x: u64, y: u64) -> (r: u64)
    ensures
        r == sat_add64(x, y),
{
    if x <= u64::MAX - y {
        x + y
    } else {
        u64::MAX
    }
}

/// Repeated leveling as pure arithmetic: while the experience reaches the
/// current level's threshold of `level * 1000`, spend it and go up a level.
pub open spec fn settle(level: nat, xp: nat) -> (nat, nat)
    decreases xp,
{
    if level >= 1 && xp >= level * 1000 {
        settle((level + 1) as nat, (xp - level * 1000) as nat)
    } else {
        (level, xp)
    }
}

/// Repeated leveling as executed: identical to `settle` until the level
/// would pass `u32::MAX`, where it stops.
pub open spec fn settle_capped(level: u32, xp: u64) -> (u32, u64)
    decreases xp,
{
    if level >= 1 && level < u32::MAX && xp >= level as u64 * 1000 {
        settle_capped((level + 1) as u32, (xp - level as u64 * 1000) as u64)
    } else {
        (level, xp)
    }
}

/// Leveling never lowers the level.
pub proof fn lemma_settle_lower(level: nat, xp: nat)
    ensures
        settle(level, xp).0 >= level,
    decreases xp,
{
    if level >= 1 && xp >= level * 1000 {
        lemma_settle_lower((level + 1) as nat, (xp - level * 1000) as nat);
    }
}

/// Wherever the pure leveling stays within `u32::MAX` levels, the executed
/// leveling agrees with it exactly.
pub proof fn lemma_settle_capped_exact(level: u32, xp: u64)
    requires
        level >= 1,
        settle(level as nat, xp as nat).0 <= u32::MAX,
    ensures
        settle_capped(level, xp).0 == settle(level as nat, xp as nat).0,
        settle_capped(level, xp).1 == settle(level as nat, xp as nat).1,
    decreases xp,
{
    if xp >= level as u64 * 1000 {
        if level == u32::MAX {
            lemma_settle_lower((level + 1) as nat, (xp - level as u64 * 1000) as nat);
            assert(false);
        } else {
            lemma_settle_capped_exact((level + 1) as u32, (xp - level as u64 * 1000) as u64);
        }
    }
}

/// What leveling leaves behind: a level of at least 1 and, short of the
/// level rail, less experience than the next threshold.
pub proof fn lemma_settle_capped_wf(level: u32, xp: u64)
    requires
        level >= 1,
    ensures
        settle_capped(level, xp).0 >= 1,
        settle_capped(level, xp).0 == u32::MAX || settle_capped(level, xp).1 < settle_capped(
            level,
            xp,
        ).0 as u64 * 1000,
    decreases xp,
{
    if level < u32::MAX && xp >= level as u64 * 1000 {
        lemma_settle_capped_wf((level + 1) as u32, (xp - level as u64 * 1000) as u64);
    }
}

/// A healthy profile: at least level 1 and, short of the level rail,
/// experience below the next threshold.
pub open spec fn profile_wf(p: ProfileView) -> bool {
    p.level >= 1 && (p.level == u32::MAX || p.xp < p.level as u64 * 1000)
}

/// The profile after an experience award: the gain joins the pool, then
/// repeated leveling runs.
pub open spec fn xp_awarded(p: ProfileView, gain: u64) -> ProfileView {
    let pool = sat_add64(p.xp, gain);
    let lx = settle_capped(p.level, pool);
    ProfileView {
        address: p.address,
        username: p.username,
        avatar_id: p.avatar_id,
        level: lx.0,
        xp: lx.1,
        snake_stats: p.snake_stats,
        tictactoe_stats: p.tictactoe_stats,
        snakeladders_stats: p.snakeladders_stats,
        uno_stats: p.uno_stats,
        joined_at: p.joined_at,
    }
}

/// One win or loss recorded in a per-game counter block.
pub open spec fn stats_after_result(s: GameStats, won: bool) -> GameStats {
    GameStats {
        games_played: bumped32(s.games_played),
        wins: if won {
            bumped32(s.wins)
        } else {
            s.wins
        },
        losses: if won {
            s.losses
        } else {
            bumped32(s.losses)
        },
        high_score: s.high_score,
        total_score: s.total_score,
    }
}

/// One numeric score recorded in a per-game counter block.
pub open spec fn stats_after_score(s: GameStats, score: u32) -> GameStats {
    GameStats {
        games_played: bumped32(s.games_played),
        wins: s.wins,
        losses: s.losses,
        high_score: if score > s.high_score {
            score
        } else {
            s.high_score
        },
        total_score: sat_add64(s.total_score, score as u64),
    }
}

/// Adds experience to a profile and runs repeated leveling.
pub fn gain_xp(profile: &mut UserProfile, gain: u64)
    requires
        old(profile)@.level >= 1,
    ensures
        final(profile)@ == xp_awarded(old(profile)@, gain),
        profile_wf(final(profile)@),
{
    profile.xp = sat_add_u64(profile.xp, gain);
    proof {
        lemma_settle_capped_wf(profile.level, profile.xp);
    }
    while profile.xp >= (profile.level as u64) * 1000 && profile.level < u32::MAX
        invariant
            profile.level >= 1,
            settle_capped(profile.level, profile.xp) == settle_capped(
                old(profile)@.level,
                sat_add64(old(profile)@.xp, gain),
            ),
            profile.address == old(profile).address,
            profile.username == old(profile).username,
            profile.avatar_id == old(profile).avatar_id,
            profile.snake_stats == old(profile).snake_stats,
            profile.tictactoe_stats == old(profile).tictactoe_stats,
            profile.snakeladders_stats == old(profile).snakeladders_stats,
            profile.uno_stats == old(profile).uno_stats,
            profile.joined_at == old(profile).joined_at,
        decreases profile.xp,
    {
        profile.xp = profile.xp - (profile.level as u64) * 1000;
        profile.level = profile.level + 1;
    }
    proof {
        lemma_settle_capped_wf(old(profile)@.level, sat_add64(old(profile)@.xp, gain));
    }
}

/// The record of one grid-game outcome: counters, then 50 or 10 experience.
pub open spec fn grid_result_recorded(p: ProfileView, won: bool) -> ProfileView {
    xp_awarded(
        ProfileView {
            tictactoe_stats: stats_after_result(p.tictactoe_stats, won),
            ..p
        },
        if won {
            50
        } else {
            10
        },
    )
}

/// Records one grid-game outcome on a profile.
pub fn record_tictactoe_result(profile: &mut UserProfile, won: bool)
    requires
        old(profile)@.level >= 1,
    ensures
        final(profile)@ == grid_result_recorded(old(profile)@, won),
        profile_wf(final(profile)@),
{
    profile.tictactoe_stats.games_played = bump_u32(profile.tictactoe_stats.games_played);
    if won {
        profile.tictactoe_stats.wins = bump_u32(profile.tictactoe_stats.wins);
        gain_xp(profile, 50);
    } else {
        profile.tictactoe_stats.losses = bump_u32(profile.tictactoe_stats.losses);
        gain_xp(profile, 10);
    }
}

/// The record of one track-game outcome; the experience pair differs
/// between a submitted result and a shard-reported one.
pub open spec fn track_result_recorded(
    p: ProfileView,
    won: bool,
    xp_win: u64,
    xp_loss: u64,
) -> ProfileView {
    xp_awarded(
        ProfileView {
            snakeladders_stats: stats_after_result(p.snakeladders_stats, won),
            ..p
        },
        if won {
            xp_win
        } else {
            xp_loss
        },
    )
}

/// Records one track-game outcome on a profile.
pub fn record_snakeladders_result(profile: &mut UserProfile, won: bool, xp_win: u64, xp_loss: u64)
    requires
        old(profile)@.level >= 1,
    ensures
        final(profile)@ == track_result_recorded(old(profile)@, won, xp_win, xp_loss),
        profile_wf(final(profile)@),
{
    profile.snakeladders_stats.games_played = bump_u32(profile.snakeladders_stats.games_played);
    if won {
        profile.snakeladders_stats.wins = bump_u32(profile.snakeladders_stats.wins);
        gain_xp(profile, xp_win);
    } else {
        profile.snakeladders_stats.losses = bump_u32(profile.snakeladders_stats.losses);
        gain_xp(profile, xp_loss);
    }
}

/// The record of one card-game outcome: counters, then 60 or 15 experience.
pub open spec fn uno_result_recorded(p: ProfileView, won: bool) -> ProfileView {
    xp_awarded(
        ProfileView {
            uno_stats: stats_after_result(p.uno_stats, won),
            ..p
        },
        if won {
            60
        } else {
            15
        },
    )
}

/// Records one card-game outcome on a profile.
pub fn record_uno_result(profile: &mut UserProfile, won: bool)
    requires
        old(profile)@.level >= 1,
    ensures
        final(profile)@ == uno_result_recorded(old(profile)@, won),
        profile_wf(final(profile)@),
{
    profile.uno_stats.games_played = bump_u32(profile.uno_stats.games_played);
    if won {
        profile.uno_stats.wins = bump_u32(profile.uno_stats.wins);
        gain_xp(profile, 60);
    } else {
        profile.uno_stats.losses = bump_u32(profile.uno_stats.losses);
        gain_xp(profile, 15);
    }
}

/// The record of one arcade score: score counters, then `score / 10`
/// experience.
pub open spec fn snake_score_recorded(p: ProfileView, score: u32) -> ProfileView {
    xp_awarded(
        ProfileView {
            snake_stats: stats_after_score(p.snake_stats, score),
            ..p
        },
        (score / 10) as u64,
    )
}

/// Records one arcade score on a profile.
pub fn record_snake_score(profile: &mut UserProfile, score: u32)
    requires
        old(profile)@.level >= 1,
    ensures
        final(profile)@ == snake_score_recorded(old(profile)@, score),
        profile_wf(final(profile)@),
{
    if score > profile.snake_stats.high_score {
        profile.snake_stats.high_score = score;
    }
    profile.snake_stats.games_played = bump_u32(profile.snake_stats.games_played);
    profile.snake_stats.total_score = sat_add_u64(profile.snake_stats.total_score, score as u64);
    gain_xp(profile, (score / 10) as u64);
}

/// The default name for an unseen address: `Player` and the first eight
/// characters of the address.
pub open spec fn default_username(addr: Seq<char>) -> Seq<char> {
    seq!['P', 'l', 'a', 'y', 'e', 'r'] + (if addr.len() >= 8 {
        addr.take(8)
    } else {
        addr
    })
}

/// The profile an unseen address starts with.
pub open spec fn fresh_profile(addr: Seq<char>, timestamp: u64) -> ProfileView {
    ProfileView {
        address: addr,
        username: default_username(addr),
        avatar_id: 0,
        level: 1,
        xp: 0,
        snake_stats: GameStats::zero(),
        tictactoe_stats: GameStats::zero(),
        snakeladders_stats: GameStats::zero(),
        uno_stats: GameStats::zero(),
        joined_at: timestamp,
    }
}

/// Builds the starting profile for an address.
pub fn new_profile(address: &str, timestamp: u64) -> (p: UserProfile)
    ensures
        p@ == fresh_profile(address@, timestamp),
        profile_wf(p@),
{
    let n = address.unicode_len();
    let cut = if n >= 8 {
        8
    } else {
        n
    };
    let mut username = String::from_str("Player");
    proof {
        reveal_strlit("Player");
        assert(username@ =~= seq!['P', 'l', 'a', 'y', 'e', 'r']);
    }
    username.append(address.substring_char(0, cut));
    proof {
        if n >= 8 {
            assert(address@.subrange(0, 8) =~= address@.take(8));
        } else {
            assert(address@.subrange(0, n as int) =~= address@);
        }
    }
    UserProfile {
        address: address.to_owned(),
        username,
        avatar_id: 0,
        level: 1,
        xp: 0,
        snake_stats: GameStats::new(),
        tictactoe_stats: GameStats::new(),
        snakeladders_stats: GameStats::new(),
        uno_stats: GameStats::new(),
        joined_at: timestamp,
    }
}

} // verus!
