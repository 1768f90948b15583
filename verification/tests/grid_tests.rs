use game_station::grid::{check_tictactoe_win, process_tictactoe_move};

fn two_players() -> Vec<String> {
    vec!["alice".to_string(), "bob".to_string()]
}

#[test]
fn win_rows() {
    assert!(check_tictactoe_win("XXX\n---\n---"));
    assert!(check_tictactoe_win("---\nOOO\n---"));
    assert!(check_tictactoe_win("---\n---\nXXX"));
}

#[test]
fn win_columns() {
    assert!(check_tictactoe_win("X--\nX--\nX--"));
    assert!(check_tictactoe_win("-O-\n-O-\n-O-"));
    assert!(check_tictactoe_win("--X\n--X\n--X"));
}

#[test]
fn win_diagonals() {
    assert!(check_tictactoe_win("X--\n-X-\n--X"));
    assert!(check_tictactoe_win("--O\n-O-\nO--"));
}

#[test]
fn no_win_without_a_line() {
    assert!(!check_tictactoe_win(""));
    assert!(!check_tictactoe_win("---\n---\n---"));
    assert!(!check_tictactoe_win("XOX\nOXO\nOXO"));
    assert!(!check_tictactoe_win("XX-\n---\n---"));
    assert!(!check_tictactoe_win("XOX\nXOX\nOXO"));
}

#[test]
fn empty_cells_do_not_win() {
    // A line of empty cells carries no mark.
    assert!(!check_tictactoe_win("-X-\n-O-\n---"));
}

#[test]
fn malformed_boards_never_win() {
    assert!(!check_tictactoe_win("XXX"));
    assert!(!check_tictactoe_win("XXX\nXXX"));
    assert!(!check_tictactoe_win("XXXX\n---\n---"));
}

#[test]
fn first_move_on_fresh_board() {
    let players = two_players();
    let s = process_tictactoe_move("", "0,0", "alice", &players);
    assert_eq!(s, "X--\n---\n---");
}

#[test]
fn second_player_marks_o() {
    let players = two_players();
    let s = process_tictactoe_move("X--\n---\n---", "1,0", "bob", &players);
    assert_eq!(s, "XO-\n---\n---");
}

#[test]
fn move_addresses_column_then_row() {
    let players = two_players();
    let s = process_tictactoe_move("", "1,2", "alice", &players);
    assert_eq!(s, "---\n---\n-X-");
}

#[test]
fn occupied_cell_is_never_overwritten() {
    let players = two_players();
    let board = "X--\n---\n---";
    let s = process_tictactoe_move(board, "0,0", "bob", &players);
    assert_eq!(s, board);
}

#[test]
fn out_of_bounds_move_is_ignored() {
    let players = two_players();
    assert_eq!(process_tictactoe_move("", "3,0", "alice", &players), "");
    assert_eq!(process_tictactoe_move("", "0,3", "alice", &players), "");
    assert_eq!(process_tictactoe_move("", "12,12", "alice", &players), "");
}

#[test]
fn malformed_move_is_ignored() {
    let players = two_players();
    assert_eq!(process_tictactoe_move("", "1", "alice", &players), "");
    assert_eq!(process_tictactoe_move("", "a,b", "alice", &players), "");
    assert_eq!(process_tictactoe_move("", "1,2,3", "alice", &players), "");
    assert_eq!(process_tictactoe_move("", "", "alice", &players), "");
}

#[test]
fn malformed_board_is_left_alone() {
    let players = two_players();
    let s = process_tictactoe_move("garbage", "0,0", "alice", &players);
    assert_eq!(s, "garbage");
}

#[test]
fn full_game_to_a_row_win() {
    let players = two_players();
    let mut board = String::new();
    for (mv, who) in [
        ("0,0", "alice"),
        ("0,1", "bob"),
        ("1,0", "alice"),
        ("1,1", "bob"),
    ] {
        board = process_tictactoe_move(&board, mv, who, &players);
        assert!(!check_tictactoe_win(&board));
    }
    board = process_tictactoe_move(&board, "2,0", "alice", &players);
    assert_eq!(board, "XXX\nOO-\n---");
    assert!(check_tictactoe_win(&board));
}
