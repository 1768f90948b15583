//! Per-game leaderboards: at most 100 entries, sorted by score descending,
//! 1-based ranks assigned by position.
//!
//! A new score for a listed player replaces that player's entry only when
//! strictly greater; an unlisted player is inserted.  Among equal scores
//! the earlier arrival keeps the better rank: a changed or new entry goes
//! behind every entry whose score is at least as high.

use vstd::prelude::*;

use crate::text::str_eq;
use crate::types::{EntryView, LeaderboardEntry};

verus! {

/// Scores never increase along the list.
pub open spec fn scores_sorted(l: Seq<EntryView>) -> bool {
    forall|i: int, j: int| 0 <= i < j < l.len() ==> l[i].score >= l[j].score
}

/// No player is listed twice.
pub open spec fn ids_uniq(l: Seq<EntryView>) -> bool {
    forall|i: int, j: int| 0 <= i < j < l.len() ==> l[i].player_id != l[j].player_id
}

/// Each rank is the 1-based position.
pub open spec fn ranks_ok(l: Seq<EntryView>) -> bool {
    forall|i: int| 0 <= i < l.len() ==> #[trigger] l[i].rank == i + 1
}

/// A healthy leaderboard.
pub open spec fn board_wf(l: Seq<EntryView>) -> bool {
    l.len() <= 100 && scores_sorted(l) && ids_uniq(l) && ranks_ok(l)
}

/// Whether a player is listed.
pub open spec fn has_id(l: Seq<EntryView>, id: Seq<char>) -> bool {
    exists|i: int| 0 <= i < l.len() && l[i].player_id == id
}

/// The listed player's position; meaningful under `has_id` and `ids_uniq`.
pub open spec fn id_index(l: Seq<EntryView>, id: Seq<char>) -> int {
    choose|i: int| 0 <= i < l.len() && l[i].player_id == id
}

/// Where a score goes: behind every at-least-as-high score.
pub open spec fn insert_pos(l: Seq<EntryView>, score: u32) -> int
    decreases l.len(),
{
    if l.len() == 0 {
        0
    } else if l[0].score < score {
        0
    } else {
        1 + insert_pos(l.skip(1), score)
    }
}

pub proof fn lemma_insert_pos_range(l: Seq<EntryView>, score: u32)
    ensures
        0 <= insert_pos(l, score) <= l.len(),
        forall|j: int| 0 <= j < insert_pos(l, score) ==> l[j].score >= score,
        insert_pos(l, score) < l.len() ==> l[insert_pos(l, score)].score < score,
    decreases l.len(),
{
    if l.len() > 0 && l[0].score >= score {
        lemma_insert_pos_range(l.skip(1), score);
        assert(forall|j: int| 0 <= j < insert_pos(l, score) ==> l[j].score >= score) by {
            assert(forall|j: int|
                1 <= j < insert_pos(l, score) ==> l[j] == l.skip(1)[j - 1]);
        }
    }
}

/// One freshly made entry, rank still unassigned.
pub open spec fn mk_entry(id: Seq<char>, name: Seq<char>, score: u32) -> EntryView {
    EntryView { player_id: id, player_name: name, score, rank: 0 }
}

/// Ranks reassigned by position.
pub open spec fn reranked(l: Seq<EntryView>) -> Seq<EntryView> {
    Seq::new(
        l.len(),
        |i: int|
            EntryView {
                player_id: l[i].player_id,
                player_name: l[i].player_name,
                score: l[i].score,
                rank: (i + 1) as u32,
            },
    )
}

/// The list cut down to the top 100.
pub open spec fn capped(l: Seq<EntryView>) -> Seq<EntryView> {
    if l.len() <= 100 {
        l
    } else {
        l.take(100)
    }
}

/// A score placed into a list: inserted at its position, the list capped,
/// ranks reassigned.
pub open spec fn placed(
    l: Seq<EntryView>,
    id: Seq<char>,
    name: Seq<char>,
    score: u32,
) -> Seq<EntryView> {
    reranked(capped(l.insert(insert_pos(l, score), mk_entry(id, name, score))))
}

/// One score submitted to a leaderboard: a listed player's entry moves
/// only for a strictly greater score; an unlisted player is inserted.
pub open spec fn board_updated(
    l: Seq<EntryView>,
    id: Seq<char>,
    name: Seq<char>,
    score: u32,
) -> Seq<EntryView> {
    if has_id(l, id) {
        if score > l[id_index(l, id)].score {
            placed(l.remove(id_index(l, id)), id, name, score)
        } else {
            l
        }
    } else {
        placed(l, id, name, score)
    }
}

/// Copies a list of entries, keeping its view.
pub fn clone_entry_vec(v: &Vec<LeaderboardEntry>) -> (r: Vec<LeaderboardEntry>)
    ensures
        r.deep_view() == v.deep_view(),
{
    let n = v.len();
    let mut out: Vec<LeaderboardEntry> = Vec::new();
    let mut i: usize = 0;
    while i < n
        invariant
            n == v.len(),
            i <= n,
            out@.len() == i,
            forall|j: int| 0 <= j < i ==> out.deep_view()[j] == v.deep_view()[j],
        decreases n - i,
    {
        out.push(v[i].clone());
        i = i + 1;
    }
    proof {
        assert(out.deep_view() =~= v.deep_view());
    }
    out
}

/// The listed player's first position, scanned from the front.
fn find_id(board: &Vec<LeaderboardEntry>, id: &str) -> (r: Option<usize>)
    ensures
        match r {
            Some(i) => i < board.len() && board.deep_view()[i as int].player_id == id@,
            None => !has_id(board.deep_view(), id@),
        },
{
    let n = board.len();
    let mut i: usize = 0;
    while i < n
        invariant
            n == board.len(),
            i <= n,
            forall|j: int| 0 <= j < i ==> board.deep_view()[j].player_id != id@,
        decreases n - i,
    {
        if str_eq(board[i].player_id.as_str(), id) {
            assert(board.deep_view()[i as int].player_id == id@);
            return Some(i);
        }
        i = i + 1;
    }
    assert(!has_id(board.deep_view(), id@));
    None
}

/// Inserts a fresh entry at its sorted position, caps the list and
/// reassigns ranks.
fn place_entry(board: &mut Vec<LeaderboardEntry>, id: &str, name: &str, score: u32)
    requires
        scores_sorted(old(board).deep_view()),
        old(board).len() <= 100,
    ensures
        final(board).deep_view() == placed(old(board).deep_view(), id@, name@, score),
{
    let ghost l0 = board.deep_view();
    proof {
        lemma_insert_pos_range(l0, score);
    }
    let n = board.len();
    let mut p: usize = 0;
    while p < n && board[p].score >= score
        invariant
            n == board.len(),
            p <= n,
            board == old(board),
            forall|j: int| 0 <= j < p ==> board.deep_view()[j].score >= score,
        decreases n - p,
    {
        p = p + 1;
    }
    proof {
        let ip = insert_pos(l0, score);
        if (p as int) < ip {
            assert(l0[p as int].score >= score);
            assert(l0[p as int].score < score) by {
                assert(scores_sorted(l0));
                assert(ip <= l0.len());
                if (p as int) < ip - 1 {
                    assert(l0[ip - 1].score >= score);
                }
            }
        }
        if ip < p as int {
            assert(l0[ip].score < score);
            assert(l0[ip].score >= score);
        }
        assert(p as int == ip);
    }
    let entry = LeaderboardEntry {
        player_id: id.to_owned(),
        player_name: name.to_owned(),
        score,
        rank: 0,
    };
    board.insert(p, entry);
    proof {
        assert(board.deep_view() =~= l0.insert(p as int, mk_entry(id@, name@, score)));
    }
    if board.len() > 100 {
        board.truncate(100);
    }
    let ghost l1 = capped(l0.insert(p as int, mk_entry(id@, name@, score)));
    proof {
        assert(board.deep_view() =~= l1);
    }
    let m = board.len();
    let mut j: usize = 0;
    while j < m
        invariant
            m == board.len(),
            j <= m,
            m == l1.len(),
            m <= 101,
            forall|t: int| 0 <= t < j ==> #[trigger] board.deep_view()[t] == reranked(l1)[t],
            forall|t: int| j <= t < m ==> #[trigger] board.deep_view()[t] == l1[t],
        decreases m - j,
    {
        let ghost pre = board.deep_view();
        proof {
            assert(pre[j as int] == l1[j as int]);
            assert(board@[j as int].deep_view() == pre[j as int]);
        }
        let e = LeaderboardEntry {
            player_id: board[j].player_id.clone(),
            player_name: board[j].player_name.clone(),
            score: board[j].score,
            rank: (j as u32) + 1,
        };
        proof {
            assert(e.deep_view() == EntryView {
                player_id: l1[j as int].player_id,
                player_name: l1[j as int].player_name,
                score: l1[j as int].score,
                rank: (j + 1) as u32,
            });
        }
        vstd::pervasive::VecAdditionalExecFns::set(board, j, e);
        proof {
            assert(forall|t: int|
                0 <= t < m && t != j ==> board.deep_view()[t] == pre[t]);
            assert(board.deep_view()[j as int] == e.deep_view());
            assert(board.deep_view()[j as int] == reranked(l1)[j as int]);
            assert forall|t: int| 0 <= t < j + 1 implies #[trigger] board.deep_view()[t]
                == reranked(l1)[t] by {
                if t < j {
                    assert(pre[t] == reranked(l1)[t]);
                    assert(board.deep_view()[t] == pre[t]);
                }
            }
            assert forall|t: int| j + 1 <= t < m implies #[trigger] board.deep_view()[t]
                == l1[t] by {
                assert(pre[t] == l1[t]);
                assert(board.deep_view()[t] == pre[t]);
            }
        }
        j = j + 1;
    }
    proof {
        assert(board.deep_view() =~= reranked(l1));
    }
}

/// Applies one submitted score to a leaderboard, per `board_updated`.
pub fn update_leaderboard_entries(
    board: &mut Vec<LeaderboardEntry>,
    player_id: &str,
    player_name: &str,
    score: u32,
)
    requires
        board_wf(old(board).deep_view()),
    ensures
        final(board).deep_view() == board_updated(
            old(board).deep_view(),
            player_id@,
            player_name@,
            score,
        ),
        board_wf(final(board).deep_view()),
{
    let ghost l0 = board.deep_view();
    match find_id(board, player_id) {
        Some(i) => {
            proof {
                assert(has_id(l0, player_id@));
                let w = id_index(l0, player_id@);
                assert(0 <= w < l0.len() && l0[w].player_id == player_id@);
                assert(w == i as int) by {
                    if w != i as int {
                        assert(ids_uniq(l0));
                    }
                }
            }
            if score > board[i].score {
                board.remove(i);
                proof {
                    assert(board.deep_view() =~= l0.remove(i as int));
                    assert(scores_sorted(board.deep_view())) by {
                        assert(forall|t: int|
                            0 <= t < l0.len() - 1 ==> #[trigger] l0.remove(i as int)[t] == (if t
                                < i as int {
                                l0[t]
                            } else {
                                l0[t + 1]
                            }));
                    }
                    assert(ids_uniq(board.deep_view())) by {
                        assert(forall|t: int|
                            0 <= t < l0.len() - 1 ==> #[trigger] l0.remove(i as int)[t] == (if t
                                < i as int {
                                l0[t]
                            } else {
                                l0[t + 1]
                            }));
                    }
                    assert(!has_id(board.deep_view(), player_id@)) by {
                        assert(forall|t: int|
                            0 <= t < l0.len() - 1 ==> #[trigger] l0.remove(i as int)[t] == (if t
                                < i as int {
                                l0[t]
                            } else {
                                l0[t + 1]
                            }));
                    }
                }
                place_entry(board, player_id, player_name, score);
                proof {
                    lemma_placed_wf(l0.remove(i as int), player_id@, player_name@, score);
                }
            }
        },
        None => {
            place_entry(board, player_id, player_name, score);
            proof {
                lemma_placed_wf(l0, player_id@, player_name@, score);
            }
        },
    }
}

/// Placing a score into a sorted, duplicate-free list of at most 100
/// entries yields a healthy leaderboard again.
proof fn lemma_placed_wf(l: Seq<EntryView>, id: Seq<char>, name: Seq<char>, score: u32)
    requires
        l.len() <= 100,
        scores_sorted(l),
        ids_uniq(l),
        !has_id(l, id),
    ensures
        board_wf(placed(l, id, name, score)),
{
    lemma_insert_pos_range(l, score);
    let p = insert_pos(l, score);
    let li = l.insert(p, mk_entry(id, name, score));
    assert(forall|t: int|
        0 <= t < li.len() ==> #[trigger] li[t] == (if t < p {
            l[t]
        } else if t == p {
            mk_entry(id, name, score)
        } else {
            l[t - 1]
        }));
    assert(scores_sorted(li));
    assert(ids_uniq(li));
    let lc = capped(li);
    assert(forall|t: int| 0 <= t < lc.len() ==> lc[t] == li[t]);
    assert(scores_sorted(lc));
    assert(ids_uniq(lc));
    let lr = reranked(lc);
    assert(lr.len() <= 100);
    assert(scores_sorted(lr));
    assert(ids_uniq(lr));
    assert(ranks_ok(lr));
}

} // verus!
