use game_station::tournament::{advance_tournament_record, generate_tournament_brackets};
use game_station::types::{Tournament, TournamentStatus};

fn names(list: &[&str]) -> Vec<String> {
    list.iter().map(|s| s.to_string()).collect()
}

fn running(brackets: &[(&str, &str)]) -> Tournament {
    Tournament {
        id: "tournament-0".to_string(),
        name: "cup".to_string(),
        game_type: game_station::types::GameType::TicTacToe,
        creator: "alice".to_string(),
        participants: names(&["A", "B", "C", "D"]),
        max_players: 8,
        status: TournamentStatus::InProgress,
        current_round: 1,
        brackets: brackets
            .iter()
            .map(|(a, b)| game_station::types::TournamentBracket {
                player1: a.to_string(),
                player2: b.to_string(),
            })
            .collect(),
        created_at: 0,
    }
}

#[test]
fn four_participants_pair_in_order() {
    let brackets = generate_tournament_brackets(&names(&["A", "B", "C", "D"]));
    assert_eq!(brackets.len(), 2);
    assert_eq!(brackets[0].player1, "A");
    assert_eq!(brackets[0].player2, "B");
    assert_eq!(brackets[1].player1, "C");
    assert_eq!(brackets[1].player2, "D");
}

#[test]
fn odd_trailing_participant_gets_no_bracket() {
    let brackets = generate_tournament_brackets(&names(&["A", "B", "C", "D", "E"]));
    assert_eq!(brackets.len(), 2);
    assert_eq!(brackets[1].player2, "D");
}

#[test]
fn fewer_than_two_pair_nothing() {
    assert_eq!(generate_tournament_brackets(&names(&[])).len(), 0);
    assert_eq!(generate_tournament_brackets(&names(&["A"])).len(), 0);
}

#[test]
fn two_participant_tournament_completes_in_one_round() {
    let mut t = running(&[("A", "B")]);
    advance_tournament_record(&mut t, "A-B", "A");
    assert!(matches!(t.status, TournamentStatus::Completed));
    assert_eq!(t.brackets.len(), 0);
}

#[test]
fn reporting_one_of_two_matches_keeps_the_other() {
    let mut t = running(&[("A", "B"), ("C", "D")]);
    advance_tournament_record(&mut t, "A-B", "A");
    assert!(matches!(t.status, TournamentStatus::InProgress));
    assert_eq!(t.brackets.len(), 1);
    assert_eq!(t.brackets[0].player1, "C");
    assert_eq!(t.brackets[0].player2, "D");
}

#[test]
fn reporting_the_last_match_completes() {
    // Per the stated advancement rule the winner pool holds only the last
    // reported winner once every bracket is gone, so the bracket set
    // emptying completes the tournament.
    let mut t = running(&[("A", "B"), ("C", "D")]);
    advance_tournament_record(&mut t, "A-B", "A");
    advance_tournament_record(&mut t, "C-D", "C");
    assert!(matches!(t.status, TournamentStatus::Completed));
    assert_eq!(t.brackets.len(), 0);
}

#[test]
fn unknown_match_key_keeps_every_bracket() {
    let mut t = running(&[("A", "B"), ("C", "D")]);
    advance_tournament_record(&mut t, "X-Y", "X");
    assert!(matches!(t.status, TournamentStatus::InProgress));
    assert_eq!(t.brackets.len(), 2);
}

#[test]
fn only_a_running_tournament_advances() {
    let mut t = running(&[("A", "B")]);
    t.status = TournamentStatus::Registration;
    advance_tournament_record(&mut t, "A-B", "A");
    assert!(matches!(t.status, TournamentStatus::Registration));
    assert_eq!(t.brackets.len(), 1);
}
