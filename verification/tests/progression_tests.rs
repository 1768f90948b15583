use game_station::progression::{
    gain_xp, new_profile, record_snake_score, record_snakeladders_result, record_tictactoe_result,
    record_uno_result,
};

#[test]
fn fresh_profile_defaults() {
    let p = new_profile("0123456789abcdef", 42);
    assert_eq!(p.address, "0123456789abcdef");
    assert_eq!(p.username, "Player01234567");
    assert_eq!(p.avatar_id, 0);
    assert_eq!(p.level, 1);
    assert_eq!(p.xp, 0);
    assert_eq!(p.joined_at, 42);
    assert_eq!(p.tictactoe_stats.games_played, 0);
}

#[test]
fn short_address_keeps_whole_name() {
    let p = new_profile("abc", 0);
    assert_eq!(p.username, "Playerabc");
}

#[test]
fn leveling_crosses_one_threshold() {
    let mut p = new_profile("a", 0);
    p.level = 1;
    p.xp = 950;
    gain_xp(&mut p, 100);
    assert_eq!(p.level, 2);
    assert_eq!(p.xp, 50);
}

#[test]
fn leveling_crosses_several_thresholds() {
    // 3500 pays the 1000 for level 1 and the 2000 for level 2, leaving 500.
    let mut p = new_profile("a", 0);
    gain_xp(&mut p, 3500);
    assert_eq!(p.level, 3);
    assert_eq!(p.xp, 500);
}

#[test]
fn leveling_stops_below_threshold() {
    let mut p = new_profile("a", 0);
    gain_xp(&mut p, 999);
    assert_eq!(p.level, 1);
    assert_eq!(p.xp, 999);
}

#[test]
fn grid_result_awards() {
    let mut p = new_profile("a", 0);
    record_tictactoe_result(&mut p, true);
    assert_eq!(p.tictactoe_stats.games_played, 1);
    assert_eq!(p.tictactoe_stats.wins, 1);
    assert_eq!(p.tictactoe_stats.losses, 0);
    assert_eq!(p.xp, 50);
    record_tictactoe_result(&mut p, false);
    assert_eq!(p.tictactoe_stats.games_played, 2);
    assert_eq!(p.tictactoe_stats.losses, 1);
    assert_eq!(p.xp, 60);
}

#[test]
fn track_result_awards_by_path() {
    let mut p = new_profile("a", 0);
    record_snakeladders_result(&mut p, true, 100, 20);
    assert_eq!(p.snakeladders_stats.wins, 1);
    assert_eq!(p.xp, 100);
    record_snakeladders_result(&mut p, false, 40, 10);
    assert_eq!(p.snakeladders_stats.losses, 1);
    assert_eq!(p.xp, 110);
}

#[test]
fn card_result_awards() {
    let mut p = new_profile("a", 0);
    record_uno_result(&mut p, true);
    assert_eq!(p.uno_stats.wins, 1);
    assert_eq!(p.xp, 60);
    record_uno_result(&mut p, false);
    assert_eq!(p.uno_stats.losses, 1);
    assert_eq!(p.xp, 75);
}

#[test]
fn arcade_score_awards() {
    let mut p = new_profile("a", 0);
    record_snake_score(&mut p, 150);
    assert_eq!(p.snake_stats.games_played, 1);
    assert_eq!(p.snake_stats.high_score, 150);
    assert_eq!(p.snake_stats.total_score, 150);
    assert_eq!(p.xp, 15);
    record_snake_score(&mut p, 90);
    assert_eq!(p.snake_stats.high_score, 150);
    assert_eq!(p.snake_stats.total_score, 240);
    assert_eq!(p.xp, 24);
}
