//! The single-elimination tournament engine: pairing and match advancement.
//!
//! Pairing walks the participant list in order and forms sequential,
//! non-overlapping pairs; a trailing unpaired participant gets no bracket.
//! Advancing a match drops its bracket and collects the reported winner
//! together with the first player of every bracket that stays; when no
//! bracket is left the tournament either completes (a single collected
//! winner) or opens the next round over the collected winners.

use vstd::prelude::*;

use crate::text::str_eq;
use crate::types::{BracketView, Tournament, TournamentBracket, TournamentStatus, TournamentView};

verus! {

/// Sequential non-overlapping pairs of the participant list.
pub open spec fn brackets_of(ps: Seq<Seq<char>>) -> Seq<BracketView> {
    Seq::new(ps.len() / 2, |i: int| BracketView { player1: ps[2 * i], player2: ps[2 * i + 1] })
}

/// The key naming a bracket's match.
pub open spec fn bracket_key(b: BracketView) -> Seq<char> {
    b.player1 + seq!['-'] + b.player2
}

/// The brackets that survive reporting a match.
pub open spec fn kept_brackets(bs: Seq<BracketView>, mid: Seq<char>) -> Seq<BracketView>
    decreases bs.len(),
{
    if bs.len() == 0 {
        Seq::empty()
    } else {
        let prev = kept_brackets(bs.drop_last(), mid);
        if bracket_key(bs.last()) == mid {
            prev
        } else {
            prev.push(bs.last())
        }
    }
}

/// The first players of the brackets that survive, in order.
pub open spec fn kept_first_players(bs: Seq<BracketView>, mid: Seq<char>) -> Seq<Seq<char>>
    decreases bs.len(),
{
    if bs.len() == 0 {
        Seq::empty()
    } else {
        let prev = kept_first_players(bs.drop_last(), mid);
        if bracket_key(bs.last()) == mid {
            prev
        } else {
            prev.push(bs.last().player1)
        }
    }
}

/// A counter one higher, stuck at the maximum.
pub open spec fn round_after(r: u32) -> u32 {
    if r < u32::MAX {
        (r + 1) as u32
    } else {
        r
    }
}

/// A reported match applied to a tournament: the bracket goes, and once
/// none is left the tournament completes on a single collected winner or
/// pairs the collected winners into the next round.
pub open spec fn tournament_advanced(
    t: TournamentView,
    mid: Seq<char>,
    winner: Seq<char>,
) -> TournamentView {
    if t.status != TournamentStatus::InProgress {
        t
    } else {
        let rem = kept_brackets(t.brackets, mid);
        let winners = seq![winner] + kept_first_players(t.brackets, mid);
        if rem.len() == 0 {
            if winners.len() == 1 {
                TournamentView { status: TournamentStatus::Completed, brackets: rem, ..t }
            } else {
                TournamentView {
                    current_round: round_after(t.current_round),
                    brackets: brackets_of(winners),
                    ..t
                }
            }
        } else {
            TournamentView { brackets: rem, ..t }
        }
    }
}

/// Pairs participants in order, two by two; an odd trailing participant
/// is left out.
pub fn generate_tournament_brackets(participants: &Vec<String>) -> (r: Vec<TournamentBracket>)
    ensures
        r.deep_view() == brackets_of(participants.deep_view()),
{
    let mut out: Vec<TournamentBracket> = Vec::new();
    let n = participants.len();
    let mut i: usize = 0;
    proof {
        assert(out.deep_view() =~= brackets_of(participants.deep_view()).take(0));
    }
    while i + 1 < n
        invariant
            n == participants.len(),
            i <= n,
            i % 2 == 0,
            out.deep_view() == brackets_of(participants.deep_view()).take(i as int / 2),
        decreases n - i,
    {
        let b = TournamentBracket {
            player1: participants[i].clone(),
            player2: participants[i + 1].clone(),
        };
        let ghost pre = out.deep_view();
        out.push(b);
        proof {
            let ps = participants.deep_view();
            assert(b.deep_view() == BracketView { player1: ps[i as int], player2: ps[i + 1] });
            assert(out.deep_view() =~= pre.push(b.deep_view()));
            assert(out.deep_view() =~= brackets_of(ps).take((i as int + 2) / 2));
        }
        i = i + 2;
    }
    proof {
        let ps = participants.deep_view();
        assert(i as int / 2 == ps.len() as int / 2);
        assert(brackets_of(ps).take(ps.len() as int / 2) =~= brackets_of(ps));
    }
    out
}

/// Applies one reported match result, per `tournament_advanced`.
pub fn advance_tournament_record(t: &mut Tournament, match_id: &str, winner: &str)
    ensures
        final(t)@ == tournament_advanced(old(t)@, match_id@, winner@),
{
    if !matches!(t.status, TournamentStatus::InProgress) {
        assert(t@ == tournament_advanced(old(t)@, match_id@, winner@));
        return ;
    }
    let mut kept: Vec<TournamentBracket> = Vec::new();
    let mut winners: Vec<String> = Vec::new();
    winners.push(winner.to_owned());
    let n = t.brackets.len();
    let mut i: usize = 0;
    proof {
        let bs = t.brackets.deep_view();
        assert(bs.take(0) =~= Seq::<BracketView>::empty());
        assert(kept.deep_view() =~= kept_brackets(bs.take(0), match_id@));
        assert(winners.deep_view() =~= seq![winner@] + kept_first_players(bs.take(0), match_id@));
    }
    while i < n
        invariant
            n == t.brackets.len(),
            i <= n,
            t == old(t),
            kept.deep_view() == kept_brackets(t.brackets.deep_view().take(i as int), match_id@),
            winners.deep_view() == seq![winner@] + kept_first_players(
                t.brackets.deep_view().take(i as int),
                match_id@,
            ),
        decreases n - i,
    {
        proof {
            let bs = t.brackets.deep_view();
            assert(bs.take(i + 1).drop_last() =~= bs.take(i as int));
            assert(bs.take(i + 1).last() == bs[i as int]);
        }
        let b = &t.brackets[i];
        let mut key = b.player1.clone();
        key.append("-");
        key.append(b.player2.as_str());
        proof {
            reveal_strlit("-");
            assert(t.brackets.deep_view()[i as int] == t.brackets@[i as int]@);
            assert(key@ =~= bracket_key(t.brackets.deep_view()[i as int]));
        }
        if !str_eq(key.as_str(), match_id) {
            let ghost kpre = kept.deep_view();
            let ghost wpre = winners.deep_view();
            winners.push(b.player1.clone());
            kept.push(TournamentBracket { player1: b.player1.clone(), player2: b.player2.clone() });
            proof {
                let bs = t.brackets.deep_view();
                assert(kept.deep_view() =~= kpre.push(bs[i as int]));
                assert(winners.deep_view() =~= wpre.push(bs[i as int].player1));
                assert(winners.deep_view() =~= seq![winner@] + kept_first_players(
                    bs.take(i + 1),
                    match_id@,
                ));
            }
        }
        i = i + 1;
    }
    proof {
        let bs = t.brackets.deep_view();
        assert(bs.take(n as int) =~= bs);
    }
    if kept.len() == 0 {
        if winners.len() == 1 {
            t.status = TournamentStatus::Completed;
            t.brackets = kept;
            proof {
                assert(t@.brackets =~= tournament_advanced(old(t)@, match_id@, winner@).brackets);
                assert(t@.participants =~= old(t)@.participants);
                assert(t@ == tournament_advanced(old(t)@, match_id@, winner@));
            }
        } else {
            t.current_round = if t.current_round < u32::MAX {
                t.current_round + 1
            } else {
                t.current_round
            };
            t.brackets = generate_tournament_brackets(&winners);
            proof {
                assert(t@.brackets == tournament_advanced(old(t)@, match_id@, winner@).brackets);
                assert(t@.participants =~= old(t)@.participants);
                assert(t@ == tournament_advanced(old(t)@, match_id@, winner@));
            }
        }
    } else {
        t.brackets = kept;
        proof {
            assert(t@.participants =~= old(t)@.participants);
            assert(t@ == tournament_advanced(old(t)@, match_id@, winner@));
        }
    }
}


/// A two-participant tournament completes in its single round: reporting
/// the only bracket's match leaves the tournament completed, whoever the
/// winner is.
pub proof fn lemma_two_player_tournament_completes(t: TournamentView, winner: Seq<char>)
    requires
        t.status == TournamentStatus::InProgress,
        t.brackets.len() == 1,
    ensures
        tournament_advanced(t, bracket_key(t.brackets[0]), winner).status
            == TournamentStatus::Completed,
{
    let mid = bracket_key(t.brackets[0]);
    assert(t.brackets.drop_last() =~= Seq::<BracketView>::empty());
    assert(t.brackets.last() == t.brackets[0]);
    assert(kept_brackets(Seq::<BracketView>::empty(), mid) =~= Seq::<BracketView>::empty());
    assert(kept_first_players(Seq::<BracketView>::empty(), mid) =~= Seq::<Seq<char>>::empty());
    assert(kept_brackets(t.brackets, mid) =~= Seq::<BracketView>::empty());
    assert(kept_first_players(t.brackets, mid) =~= Seq::<Seq<char>>::empty());
    assert(seq![winner] + kept_first_players(t.brackets, mid) =~= seq![winner]);
}

} // verus!
