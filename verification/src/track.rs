//! Rule engine for the track-and-shortcut game on squares 1 to 100.
//!
//! Positions travel as text: a comma-joined list of `player:position`
//! entries.  A move is a die value; values outside 1 to 6 leave the state
//! unchanged, as does a roll that would land past square 100.  Landing
//! exactly on a shortcut square relocates the piece to the square's fixed
//! destination.  A player wins on reaching square 100.

use vstd::prelude::*;

use crate::numstr::{all_digits, dec_rep, digits_val, parse_u32, u64_to_string};
use crate::text::{split_on, split_str, str_eq};

verus! {

/// Reads one `player:position` entry; the position must be a decimal
/// number that fits in 32 bits.
pub open spec fn entry_parse(e: Seq<char>) -> Option<(Seq<char>, u32)> {
    let ps = split_on(e, ':');
    if ps.len() == 2 && all_digits(ps[1]) && digits_val(ps[1]) <= u32::MAX as int {
        Some((ps[0], digits_val(ps[1]) as u32))
    } else {
        None
    }
}

/// Replaces the first entry with the given name, or appends a new one.
pub open spec fn assoc_put(
    l: Seq<(Seq<char>, u32)>,
    k: Seq<char>,
    v: u32,
) -> Seq<(Seq<char>, u32)>
    decreases l.len(),
{
    if l.len() == 0 {
        seq![(k, v)]
    } else if l[0].0 == k {
        seq![(k, v)] + l.skip(1)
    } else {
        seq![l[0]] + assoc_put(l.skip(1), k, v)
    }
}

/// The first recorded position of a player, 0 when none is recorded.
pub open spec fn pos_of(l: Seq<(Seq<char>, u32)>, k: Seq<char>) -> u32
    decreases l.len(),
{
    if l.len() == 0 {
        0
    } else if l[0].0 == k {
        l[0].1
    } else {
        pos_of(l.skip(1), k)
    }
}

/// The position list that a sequence of entries denotes; malformed
/// entries are dropped, later entries override earlier ones.
pub open spec fn parse_positions(entries: Seq<Seq<char>>) -> Seq<(Seq<char>, u32)>
    decreases entries.len(),
{
    if entries.len() == 0 {
        Seq::empty()
    } else {
        let prev = parse_positions(entries.drop_last());
        match entry_parse(entries.last()) {
            Some(kv) => assoc_put(prev, kv.0, kv.1),
            None => prev,
        }
    }
}

/// The position list a state string denotes.
pub open spec fn track_positions(s: Seq<char>) -> Seq<(Seq<char>, u32)> {
    if s.len() == 0 {
        Seq::empty()
    } else {
        parse_positions(split_on(s, ','))
    }
}

/// The fixed table of shortcut and setback squares: landing exactly on a
/// listed square relocates to its destination, every other square is kept.
pub open spec fn shortcut(p: int) -> int {
    if p == 16 {
        6
    } else if p == 47 {
        26
    } else if p == 49 {
        11
    } else if p == 56 {
        53
    } else if p == 62 {
        19
    } else if p == 64 {
        60
    } else if p == 87 {
        24
    } else if p == 93 {
        73
    } else if p == 95 {
        75
    } else if p == 98 {
        78
    } else if p == 1 {
        38
    } else if p == 4 {
        14
    } else if p == 9 {
        31
    } else if p == 21 {
        42
    } else if p == 28 {
        84
    } else if p == 36 {
        44
    } else if p == 51 {
        67
    } else if p == 71 {
        91
    } else if p == 80 {
        100
    } else {
        p
    }
}

/// One die roll applied to a position list: advance, follow the shortcut
/// table, and stay put when the roll would land past square 100.
pub open spec fn track_apply(
    l: Seq<(Seq<char>, u32)>,
    player: Seq<char>,
    die: int,
) -> Seq<(Seq<char>, u32)> {
    let cur = pos_of(l, player);
    let moved = shortcut(cur + die);
    let newp = if moved > 100 {
        cur as int
    } else {
        moved
    };
    assoc_put(l, player, newp as u32)
}

/// One `player:position` entry as text.
pub open spec fn entry_str(kv: (Seq<char>, u32)) -> Seq<char> {
    kv.0 + seq![':'] + dec_rep(kv.1 as nat)
}

/// A position list as text, comma-joined.
pub open spec fn encode_positions(l: Seq<(Seq<char>, u32)>) -> Seq<char>
    decreases l.len(),
{
    if l.len() == 0 {
        Seq::empty()
    } else if l.len() == 1 {
        entry_str(l[0])
    } else {
        encode_positions(l.drop_last()) + seq![','] + entry_str(l.last())
    }
}

/// The die value a move names; anything unreadable counts as 0, which no
/// rule accepts.
pub open spec fn die_of(mv: Seq<char>) -> int {
    if all_digits(mv) && digits_val(mv) <= u32::MAX as int {
        digits_val(mv)
    } else {
        0
    }
}

/// The state after one move; an unreadable or out-of-range die leaves it
/// unchanged.
pub open spec fn track_move(s: Seq<char>, mv: Seq<char>, player: Seq<char>) -> Seq<char> {
    let die = die_of(mv);
    if !(1 <= die <= 6) {
        s
    } else {
        encode_positions(track_apply(track_positions(s), player, die))
    }
}

/// Scans entries for the player's first readable position.
pub open spec fn win_scan(entries: Seq<Seq<char>>, player: Seq<char>) -> bool
    decreases entries.len(),
{
    if entries.len() == 0 {
        false
    } else {
        match entry_parse(entries[0]) {
            Some(kv) => {
                if kv.0 == player {
                    kv.1 >= 100
                } else {
                    win_scan(entries.skip(1), player)
                }
            },
            None => win_scan(entries.skip(1), player),
        }
    }
}

/// Whether the state records the player on square 100 or beyond.
pub open spec fn track_win(s: Seq<char>, player: Seq<char>) -> bool {
    win_scan(split_on(s, ','), player)
}

proof fn lemma_assoc_put_found(l: Seq<(Seq<char>, u32)>, k: Seq<char>, v: u32, i: int)
    requires
        0 <= i < l.len(),
        l[i].0 == k,
        forall|j: int| 0 <= j < i ==> l[j].0 != k,
    ensures
        assoc_put(l, k, v) == l.update(i, (k, v)),
    decreases i,
{
    if i == 0 {
        assert(assoc_put(l, k, v) =~= l.update(0, (k, v)));
    } else {
        let t = l.skip(1);
        assert(forall|j: int| 0 <= j < i - 1 ==> t[j].0 != k);
        lemma_assoc_put_found(t, k, v, i - 1);
        assert(seq![l[0]] + t.update(i - 1, (k, v)) =~= l.update(i, (k, v)));
    }
}

proof fn lemma_assoc_put_absent(l: Seq<(Seq<char>, u32)>, k: Seq<char>, v: u32)
    requires
        forall|j: int| 0 <= j < l.len() ==> l[j].0 != k,
    ensures
        assoc_put(l, k, v) == l.push((k, v)),
    decreases l.len(),
{
    if l.len() == 0 {
        assert(assoc_put(l, k, v) =~= l.push((k, v)));
    } else {
        lemma_assoc_put_absent(l.skip(1), k, v);
        assert(seq![l[0]] + l.skip(1).push((k, v)) =~= l.push((k, v)));
    }
}

proof fn lemma_pos_of_found(l: Seq<(Seq<char>, u32)>, k: Seq<char>, i: int)
    requires
        0 <= i < l.len(),
        l[i].0 == k,
        forall|j: int| 0 <= j < i ==> l[j].0 != k,
    ensures
        pos_of(l, k) == l[i].1,
    decreases i,
{
    if i > 0 {
        let t = l.skip(1);
        assert(forall|j: int| 0 <= j < i - 1 ==> t[j].0 != k);
        lemma_pos_of_found(t, k, i - 1);
    }
}

proof fn lemma_pos_of_absent(l: Seq<(Seq<char>, u32)>, k: Seq<char>)
    requires
        forall|j: int| 0 <= j < l.len() ==> l[j].0 != k,
    ensures
        pos_of(l, k) == 0,
    decreases l.len(),
{
    if l.len() > 0 {
        lemma_pos_of_absent(l.skip(1), k);
    }
}

/// Reads one `player:position` entry.
fn parse_entry(e: &str) -> (r: Option<(String, u32)>)
    ensures
        match r {
            Some(p) => entry_parse(e@) == Some((p.0@, p.1)),
            None => entry_parse(e@) is None,
        },
{
    let ps = split_str(e, ':');
    if ps.len() != 2 {
        return None;
    }
    assert(ps.deep_view()[0] == ps@[0]@);
    assert(ps.deep_view()[1] == ps@[1]@);
    match parse_u32(ps[1].as_str()) {
        Some(v) => {
            let name = ps[0].clone();
            Some((name, v))
        },
        None => None,
    }
}

/// Records a position, replacing the player's entry or appending one.
fn put_position(l: &mut Vec<(String, u32)>, k: String, v: u32)
    ensures
        final(l).deep_view() == assoc_put(old(l).deep_view(), k@, v),
{
    let n = l.len();
    let mut i: usize = 0;
    while i < n
        invariant
            n == l.len(),
            i <= n,
            l == old(l),
            forall|j: int| 0 <= j < i ==> old(l).deep_view()[j].0 != k@,
        decreases n - i,
    {
        if str_eq(l[i].0.as_str(), k.as_str()) {
            assert(l.deep_view()[i as int].0 == k@);
            proof {
                lemma_assoc_put_found(l.deep_view(), k@, v, i as int);
            }
            let ghost pre = l.deep_view();
            vstd::pervasive::VecAdditionalExecFns::set(l, i, (k, v));
            assert(l.deep_view() =~= pre.update(i as int, (k@, v)));
            return ;
        }
        i = i + 1;
    }
    proof {
        lemma_assoc_put_absent(l.deep_view(), k@, v);
    }
    let ghost pre = l.deep_view();
    l.push((k, v));
    assert(l.deep_view() =~= pre.push((k@, v)));
}

/// The player's first recorded position, 0 when none.
fn get_position(l: &Vec<(String, u32)>, player: &str) -> (r: u32)
    ensures
        r == pos_of(l.deep_view(), player@),
{
    let n = l.len();
    let mut i: usize = 0;
    while i < n
        invariant
            n == l.len(),
            i <= n,
            forall|j: int| 0 <= j < i ==> l.deep_view()[j].0 != player@,
        decreases n - i,
    {
        if str_eq(l[i].0.as_str(), player) {
            assert(l.deep_view()[i as int].0 == player@);
            proof {
                lemma_pos_of_found(l.deep_view(), player@, i as int);
            }
            return l[i].1;
        }
        i = i + 1;
    }
    proof {
        lemma_pos_of_absent(l.deep_view(), player@);
    }
    0
}

/// Reads a whole state string into a position list.
fn parse_positions_str(s: &str) -> (r: Vec<(String, u32)>)
    ensures
        r.deep_view() == track_positions(s@),
{
    let mut out: Vec<(String, u32)> = Vec::new();
    if s.is_empty() {
        assert(out.deep_view() =~= track_positions(s@));
        return out;
    }
    let entries = split_str(s, ',');
    let n = entries.len();
    let mut i: usize = 0;
    proof {
        assert(entries.deep_view().take(0) =~= Seq::<Seq<char>>::empty());
        assert(out.deep_view() =~= parse_positions(entries.deep_view().take(0)));
    }
    while i < n
        invariant
            n == entries.len(),
            i <= n,
            entries.deep_view() == split_on(s@, ','),
            out.deep_view() == parse_positions(entries.deep_view().take(i as int)),
        decreases n - i,
    {
        assert(entries.deep_view()[i as int] == entries@[i as int]@);
        proof {
            let evs = entries.deep_view();
            assert(evs.take(i + 1).drop_last() =~= evs.take(i as int));
            assert(evs.take(i + 1).last() == evs[i as int]);
        }
        match parse_entry(entries[i].as_str()) {
            Some(p) => {
                put_position(&mut out, p.0, p.1);
            },
            None => {},
        }
        i = i + 1;
    }
    proof {
        assert(entries.deep_view().take(n as int) =~= entries.deep_view());
    }
    out
}

/// Renders a position list as a state string.
fn encode_positions_str(l: &Vec<(String, u32)>) -> (r: String)
    ensures
        r@ == encode_positions(l.deep_view()),
{
    let n = l.len();
    let mut out = String::new();
    let mut i: usize = 0;
    proof {
        assert(out@ =~= encode_positions(l.deep_view().take(0)));
    }
    while i < n
        invariant
            n == l.len(),
            i <= n,
            out@ == encode_positions(l.deep_view().take(i as int)),
        decreases n - i,
    {
        let ghost pre = out@;
        if i > 0 {
            out.append(",");
        }
        out.append(l[i].0.as_str());
        out.append(":");
        let num = u64_to_string(l[i].1 as u64);
        out.append(num.as_str());
        proof {
            reveal_strlit(",");
            reveal_strlit(":");
            let lv = l.deep_view();
            assert(lv[i as int].0 == l@[i as int].0@);
            assert(lv[i as int].1 == l@[i as int].1);
            if i == 0 {
                assert(out@ =~= entry_str(lv[0]));
                assert(lv.take(1).len() == 1);
                assert(lv.take(1)[0] == lv[0]);
                assert(encode_positions(lv.take(1)) == entry_str(lv.take(1)[0]));
            } else {
                assert(lv.take(i + 1).drop_last() =~= lv.take(i as int));
                assert(lv.take(i + 1).last() == lv[i as int]);
                assert(encode_positions(lv.take(i + 1)) == encode_positions(lv.take(i as int))
                    + seq![','] + entry_str(lv[i as int]));
                assert(out@ == pre + ","@ + l@[i as int].0@ + ":"@ + num@);
                assert(out@ =~= encode_positions(lv.take(i as int)) + seq![','] + entry_str(
                    lv[i as int],
                ));
            }
        }
        i = i + 1;
    }
    proof {
        assert(l.deep_view().take(n as int) =~= l.deep_view());
    }
    out
}

/// The shortcut table as a computation on one landing square.
fn shortcut_square(p: u64) -> (r: u64)
    ensures
        r as int == shortcut(p as int),
{
    match p {
        16 => 6,
        47 => 26,
        49 => 11,
        56 => 53,
        62 => 19,
        64 => 60,
        87 => 24,
        93 => 73,
        95 => 75,
        98 => 78,
        1 => 38,
        4 => 14,
        9 => 31,
        21 => 42,
        28 => 84,
        36 => 44,
        51 => 67,
        71 => 91,
        80 => 100,
        _ => p,
    }
}

/// Applies one die roll to a state, per `track_move`.
pub fn process_snakeladders_move(current_state: &str, move_data: &str, player: &str) -> (r: String)
    ensures
        r@ == track_move(current_state@, move_data@, player@),
{
    let die = match parse_u32(move_data) {
        Some(d) => d,
        None => {
            assert(die_of(move_data@) == 0);
            return current_state.to_owned();
        },
    };
    if die < 1 || die > 6 {
        return current_state.to_owned();
    }
    let mut positions = parse_positions_str(current_state);
    let cur = get_position(&positions, player);
    let moved = shortcut_square(cur as u64 + die as u64);
    let newp: u32 = if moved > 100 {
        cur
    } else {
        moved as u32
    };
    put_position(&mut positions, player.to_owned(), newp);
    encode_positions_str(&positions)
}

/// Decides a win for a state, per `track_win`.
pub fn check_snakeladders_win(state: &str, player: &str) -> (r: bool)
    ensures
        r == track_win(state@, player@),
{
    let entries = split_str(state, ',');
    let n = entries.len();
    let mut i: usize = 0;
    proof {
        assert(entries.deep_view().skip(0) =~= entries.deep_view());
    }
    while i < n
        invariant
            n == entries.len(),
            i <= n,
            entries.deep_view() == split_on(state@, ','),
            track_win(state@, player@) == win_scan(
                entries.deep_view().skip(i as int),
                player@,
            ),
        decreases n - i,
    {
        proof {
            let evs = entries.deep_view();
            assert(evs.skip(i as int)[0] == evs[i as int]);
            assert(evs.skip(i as int).skip(1) =~= evs.skip(i + 1));
        }
        assert(entries.deep_view()[i as int] == entries@[i as int]@);
        match parse_entry(entries[i].as_str()) {
            Some(p) => {
                if str_eq(p.0.as_str(), player) {
                    return p.1 >= 100;
                }
            },
            None => {},
        }
        i = i + 1;
    }
    proof {
        assert(entries.deep_view().skip(n as int) =~= Seq::<Seq<char>>::empty());
    }
    false
}


/// After a put, the player's recorded position is exactly the put value.
proof fn lemma_pos_of_assoc_put(l: Seq<(Seq<char>, u32)>, k: Seq<char>, v: u32)
    ensures
        pos_of(assoc_put(l, k, v), k) == v,
    decreases l.len(),
{
    if l.len() == 0 {
        assert(assoc_put(l, k, v)[0] == (k, v));
    } else if l[0].0 == k {
        assert(assoc_put(l, k, v)[0] == (k, v));
    } else {
        lemma_pos_of_assoc_put(l.skip(1), k, v);
        let t = assoc_put(l, k, v);
        assert(t[0] == l[0]);
        assert(t.skip(1) =~= assoc_put(l.skip(1), k, v));
    }
}

/// A put leaves every other player's recorded position alone.
proof fn lemma_pos_of_assoc_put_other(
    l: Seq<(Seq<char>, u32)>,
    k: Seq<char>,
    v: u32,
    other: Seq<char>,
)
    requires
        other != k,
    ensures
        pos_of(assoc_put(l, k, v), other) == pos_of(l, other),
    decreases l.len(),
{
    if l.len() == 0 {
        assert(assoc_put(l, k, v)[0] == (k, v));
        assert(assoc_put(l, k, v).skip(1) =~= Seq::<(Seq<char>, u32)>::empty());
        assert(pos_of(Seq::<(Seq<char>, u32)>::empty(), other) == 0);
    } else if l[0].0 == k {
        assert(assoc_put(l, k, v)[0] == (k, v));
        assert(assoc_put(l, k, v).skip(1) =~= l.skip(1));
        assert(pos_of(l.skip(1), other) == pos_of(l, other));
    } else {
        lemma_pos_of_assoc_put_other(l.skip(1), k, v, other);
        let t = assoc_put(l, k, v);
        assert(t[0] == l[0]);
        assert(t.skip(1) =~= assoc_put(l.skip(1), k, v));
    }
}

/// The shortcut table governs every accepted roll: landing exactly on a
/// listed square records its destination, any other square within the
/// board records itself, and a roll past square 100 records the old
/// position; nobody else's position moves.
pub proof fn lemma_roll_follows_the_table(
    l: Seq<(Seq<char>, u32)>,
    player: Seq<char>,
    die: int,
    other: Seq<char>,
)
    requires
        1 <= die <= 6,
        other != player,
    ensures
        ({
            let landing = shortcut(pos_of(l, player) + die);
            pos_of(track_apply(l, player, die), player) == (if landing > 100 {
                pos_of(l, player) as int
            } else {
                landing
            })
        }),
        pos_of(track_apply(l, player, die), other) == pos_of(l, other),
{
    let cur = pos_of(l, player);
    let moved = shortcut(cur + die);
    let newp = if moved > 100 {
        cur as int
    } else {
        moved
    };
    lemma_pos_of_assoc_put(l, player, newp as u32);
    lemma_pos_of_assoc_put_other(l, player, newp as u32, other);
}

} // verus!
