use game_station::track::{check_snakeladders_win, process_snakeladders_move};

/// Every one of the 19 fixed shortcut and setback squares, with its
/// destination.
const TABLE: [(u32, u32); 19] = [
    (16, 6),
    (47, 26),
    (49, 11),
    (56, 53),
    (62, 19),
    (64, 60),
    (87, 24),
    (93, 73),
    (95, 75),
    (98, 78),
    (1, 38),
    (4, 14),
    (9, 31),
    (21, 42),
    (28, 84),
    (36, 44),
    (51, 67),
    (71, 91),
    (80, 100),
];

#[test]
fn every_shortcut_square_relocates() {
    for (square, dest) in TABLE {
        let die = if square < 6 { square } else { 6 };
        let start = square - die;
        let state = if start == 0 {
            String::new()
        } else {
            format!("p:{}", start)
        };
        let after = process_snakeladders_move(&state, &die.to_string(), "p");
        assert_eq!(after, format!("p:{}", dest), "square {}", square);
    }
}

#[test]
fn plain_squares_are_kept() {
    let after = process_snakeladders_move("p:10", "2", "p");
    assert_eq!(after, "p:12");
}

#[test]
fn landing_past_100_stays_put() {
    let after = process_snakeladders_move("p:99", "5", "p");
    assert_eq!(after, "p:99");
    let after = process_snakeladders_move("p:97", "6", "p");
    assert_eq!(after, "p:97");
}

#[test]
fn landing_exactly_on_100_is_kept() {
    let after = process_snakeladders_move("p:96", "4", "p");
    assert_eq!(after, "p:100");
}

#[test]
fn die_outside_one_to_six_is_a_no_op() {
    for bad in ["0", "7", "100", "abc", "", "-2"] {
        let after = process_snakeladders_move("p:10", bad, "p");
        assert_eq!(after, "p:10", "die {:?}", bad);
    }
}

#[test]
fn new_player_starts_from_zero() {
    let after = process_snakeladders_move("a:10,b:20", "3", "c");
    assert_eq!(after, "a:10,b:20,c:3");
}

#[test]
fn only_the_mover_changes() {
    let after = process_snakeladders_move("a:10,b:20", "2", "a");
    assert_eq!(after, "a:12,b:20");
}

#[test]
fn malformed_entries_are_dropped_on_rewrite() {
    let after = process_snakeladders_move("junk,a:5,b:x", "1", "a");
    assert_eq!(after, "a:6");
}

#[test]
fn win_at_100() {
    assert!(check_snakeladders_win("p:100", "p"));
    assert!(check_snakeladders_win("a:3,p:100", "p"));
    assert!(!check_snakeladders_win("p:99", "p"));
    assert!(!check_snakeladders_win("a:100", "p"));
    assert!(!check_snakeladders_win("", "p"));
}
