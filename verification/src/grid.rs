//! Rule engine for the 3-by-3 grid game.
//!
//! A board travels as text: three rows of three characters joined by
//! newlines, `'-'` marking an empty cell; the empty string stands for a
//! fresh board.  A move is a zero-based `x,y` pair.  The first player of
//! the room marks `X`, every other player marks `O`.  A malformed move, an
//! out-of-bounds cell, a malformed board or an occupied cell leaves the
//! board exactly as it was.

use vstd::prelude::*;

use crate::numstr::{all_digits, digits_val, parse_u32};
use crate::text::{split_on, split_str, str_eq};

verus! {

/// The board with every cell empty.
pub open spec fn empty_grid() -> Seq<char> {
    Seq::new(11, |i: int| if i == 3 || i == 7 { '\n' } else { '-' })
}

/// A well-shaped board: three rows of three characters.
pub open spec fn grid_wf(s: Seq<char>) -> bool {
    &&& s.len() == 11
    &&& s[3] == '\n'
    &&& s[7] == '\n'
    &&& forall|i: int| 0 <= i < 11 && i != 3 && i != 7 ==> s[i] != '\n'
}

/// The mark in column `x` of row `y`; a fresh (empty-string) board is all
/// empty cells.
pub open spec fn grid_char(s: Seq<char>, x: int, y: int) -> char {
    if s.len() == 0 {
        '-'
    } else {
        s[4 * y + x]
    }
}

/// The cell a move names, when the move is a well-formed `x,y` pair.
pub open spec fn grid_parse_move(mv: Seq<char>) -> Option<(int, int)> {
    let ps = split_on(mv, ',');
    if ps.len() == 2 && all_digits(ps[0]) && digits_val(ps[0]) <= u32::MAX as int && all_digits(
        ps[1],
    ) && digits_val(ps[1]) <= u32::MAX as int {
        Some((digits_val(ps[0]), digits_val(ps[1])))
    } else {
        None
    }
}

/// The mark of a mover: `X` for the room's first player, `O` otherwise.
pub open spec fn grid_mark(player: Seq<char>, players: Seq<Seq<char>>) -> char {
    if player == players[0] {
        'X'
    } else {
        'O'
    }
}

/// The board after one move; every irregular case leaves it unchanged.
pub open spec fn grid_apply(
    s: Seq<char>,
    mv: Seq<char>,
    player: Seq<char>,
    players: Seq<Seq<char>>,
) -> Seq<char> {
    match grid_parse_move(mv) {
        None => s,
        Some((x, y)) => {
            if !(0 <= x < 3 && 0 <= y < 3) {
                s
            } else if !(s.len() == 0 || grid_wf(s)) {
                s
            } else if grid_char(s, x, y) != '-' {
                s
            } else if s.len() == 0 {
                empty_grid().update(4 * y + x, grid_mark(player, players))
            } else {
                s.update(4 * y + x, grid_mark(player, players))
            }
        },
    }
}

/// A winning board: some full row, full column or diagonal carries one
/// non-empty mark.  Only a well-shaped board can win.
pub open spec fn grid_win(s: Seq<char>) -> bool {
    grid_wf(s) && {
        ||| grid_line(s, 0, 0, 1, 0, 2, 0)
        ||| grid_line(s, 0, 1, 1, 1, 2, 1)
        ||| grid_line(s, 0, 2, 1, 2, 2, 2)
        ||| grid_line(s, 0, 0, 0, 1, 0, 2)
        ||| grid_line(s, 1, 0, 1, 1, 1, 2)
        ||| grid_line(s, 2, 0, 2, 1, 2, 2)
        ||| grid_line(s, 0, 0, 1, 1, 2, 2)
        ||| grid_line(s, 2, 0, 1, 1, 0, 2)
    }
}

/// Three cells carrying the same non-empty mark.
pub open spec fn grid_line(
    s: Seq<char>,
    x1: int,
    y1: int,
    x2: int,
    y2: int,
    x3: int,
    y3: int,
) -> bool {
    grid_char(s, x1, y1) != '-' && grid_char(s, x1, y1) == grid_char(s, x2, y2) && grid_char(
        s,
        x2,
        y2,
    ) == grid_char(s, x3, y3)
}

/// Whether the text is a well-shaped board.
fn grid_check_wf(s: &str) -> (r: bool)
    ensures
        r == grid_wf(s@),
{
    let n = s.unicode_len();
    if n != 11 {
        return false;
    }
    let mut i: usize = 0;
    while i < 11
        invariant
            s@.len() == 11,
            i <= 11,
            forall|j: int| 0 <= j < i && j != 3 && j != 7 ==> s@[j] != '\n',
            forall|j: int| 0 <= j < i && (j == 3 || j == 7) ==> s@[j] == '\n',
        decreases 11 - i,
    {
        let c = s.get_char(i);
        if i == 3 || i == 7 {
            if c != '\n' {
                return false;
            }
        } else {
            if c == '\n' {
                return false;
            }
        }
        i = i + 1;
    }
    true
}

/// Writes one mark into a well-shaped board.
fn grid_place(s: &str, pos: usize, is_x: bool) -> (r: String)
    requires
        s@.len() == 11,
        pos < 11,
    ensures
        r@ == s@.update(pos as int, if is_x {
            'X'
        } else {
            'O'
        }),
{
    proof {
        reveal_strlit("X");
        reveal_strlit("O");
    }
    let mark: &str = if is_x {
        "X"
    } else {
        "O"
    };
    let mut out = s.substring_char(0, pos).to_owned();
    out.append(mark);
    out.append(s.substring_char(pos + 1, 11));
    proof {
        assert(out@ =~= s@.update(pos as int, if is_x {
            'X'
        } else {
            'O'
        }));
    }
    out
}

/// Applies one grid-game move to a board, per `grid_apply`.
pub fn process_tictactoe_move(
    current_state: &str,
    move_data: &str,
    player: &str,
    players: &Vec<String>,
) -> (r: String)
    requires
        players@.len() > 0,
    ensures
        r@ == grid_apply(current_state@, move_data@, player@, players.deep_view()),
{
    let parts = split_str(move_data, ',');
    if parts.len() != 2 {
        return current_state.to_owned();
    }
    assert(parts.deep_view()[0] == parts@[0]@);
    assert(parts.deep_view()[1] == parts@[1]@);
    let x = match parse_u32(parts[0].as_str()) {
        Some(v) => v,
        None => { return current_state.to_owned() },
    };
    let y = match parse_u32(parts[1].as_str()) {
        Some(v) => v,
        None => { return current_state.to_owned() },
    };
    if x >= 3 || y >= 3 {
        return current_state.to_owned();
    }
    let pos: usize = 4 * (y as usize) + (x as usize);
    assert(players.deep_view()[0] == players@[0]@);
    let is_x = str_eq(player, players[0].as_str());
    let n = current_state.unicode_len();
    if n == 0 {
        let base = "---\n---\n---";
        proof {
            reveal_strlit("---\n---\n---");
            assert(base@ =~= empty_grid());
        }
        grid_place(base, pos, is_x)
    } else {
        if !grid_check_wf(current_state) {
            return current_state.to_owned();
        }
        let c = current_state.get_char(pos);
        if c != '-' {
            return current_state.to_owned();
        }
        grid_place(current_state, pos, is_x)
    }
}

/// Decides a win for a board, per `grid_win`.
pub fn check_tictactoe_win(state: &str) -> (r: bool)
    ensures
        r == grid_win(state@),
{
    if !grid_check_wf(state) {
        return false;
    }
    let c00 = state.get_char(0);
    let c10 = state.get_char(1);
    let c20 = state.get_char(2);
    let c01 = state.get_char(4);
    let c11 = state.get_char(5);
    let c21 = state.get_char(6);
    let c02 = state.get_char(8);
    let c12 = state.get_char(9);
    let c22 = state.get_char(10);
    (c00 != '-' && c00 == c10 && c10 == c20) || (c01 != '-' && c01 == c11 && c11 == c21) || (c02
        != '-' && c02 == c12 && c12 == c22) || (c00 != '-' && c00 == c01 && c01 == c02) || (c10
        != '-' && c10 == c11 && c11 == c12) || (c20 != '-' && c20 == c21 && c21 == c22) || (c00
        != '-' && c00 == c11 && c11 == c22) || (c20 != '-' && c20 == c11 && c11 == c02)
}

/// A move never overwrites an occupied cell: whatever the move, the mark
/// already standing in a cell is still there afterwards.
pub proof fn lemma_grid_no_overwrite(
    s: Seq<char>,
    mv: Seq<char>,
    player: Seq<char>,
    players: Seq<Seq<char>>,
    x: int,
    y: int,
)
    requires
        0 <= x < 3,
        0 <= y < 3,
        s.len() == 0 || grid_wf(s),
        grid_char(s, x, y) != '-',
    ensures
        grid_char(grid_apply(s, mv, player, players), x, y) == grid_char(s, x, y),
{
    match grid_parse_move(mv) {
        None => {},
        Some((mx, my)) => {
            if 0 <= mx < 3 && 0 <= my < 3 && grid_char(s, mx, my) == '-' {
                assert(s.len() != 0);
                assert(4 * my + mx != 4 * y + x);
            }
        },
    }
}

} // verus!
