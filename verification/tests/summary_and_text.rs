//! The summary reducers, the end-screen lines, and the clock text.

use trolley_problem::states::{LeverState, SelfJumping};
use trolley_problem::summary::{
    update_summary_age, update_summary_born_lever_puller, update_summary_cliff,
    update_summary_clone, update_summary_cool_hat, update_summary_darwinism,
    update_summary_double_it, update_summary_loan_forgiveness, update_summary_lobster,
    update_summary_loop, update_summary_original, update_summary_professors,
    update_summary_self, update_summary_shopping_cart,
    update_summary_thomas_the_tank_engine, update_summary_victim, update_summary_youtube_prank,
    GameSummary,
};
use trolley_problem::text::{format_timer_text, summary_lines, u64_to_dec_string};

#[test]
fn new_summary_has_philosophy_solved_and_nothing_else() {
    let s = GameSummary::new();
    assert_eq!(s.people_killed, 0);
    assert_eq!(s.people_saved, 0);
    assert!(s.solved_philosophy);
    assert!(!s.killed_hitler);
    assert!(!s.got_cool_hat);
}

#[test]
fn original_reducer_depends_on_the_lever() {
    let mut s = GameSummary::new();
    update_summary_original(&mut s, LeverState::Normal);
    assert_eq!((s.people_killed, s.people_saved), (5, 1));
    let mut s = GameSummary::new();
    update_summary_original(&mut s, LeverState::Pulled);
    assert_eq!((s.people_killed, s.people_saved), (1, 5));
}

#[test]
fn age_reducer_counts_ten_against_one() {
    let mut s = GameSummary::new();
    update_summary_age(&mut s, LeverState::Normal);
    assert_eq!((s.people_killed, s.people_saved), (10, 1));
    let mut s = GameSummary::new();
    update_summary_age(&mut s, LeverState::Pulled);
    assert_eq!((s.people_killed, s.people_saved), (1, 10));
}

#[test]
fn clone_and_cliff_set_the_hitler_flag_on_opposite_levers() {
    let mut s = GameSummary::new();
    update_summary_clone(&mut s, LeverState::Pulled);
    assert!(s.killed_hitler);
    assert_eq!(s.people_killed, 1);
    let mut s = GameSummary::new();
    update_summary_clone(&mut s, LeverState::Normal);
    assert!(!s.killed_hitler);
    assert_eq!(s.people_saved, 1);
    let mut s = GameSummary::new();
    update_summary_cliff(&mut s, LeverState::Normal);
    assert!(s.killed_hitler);
    assert_eq!(s.people_killed, 6);
    let mut s = GameSummary::new();
    update_summary_cliff(&mut s, LeverState::Pulled);
    assert!(!s.killed_hitler);
    assert_eq!(s.people_saved, 6);
}

#[test]
fn flag_reducers_set_their_flags() {
    let mut s = GameSummary::new();
    update_summary_cool_hat(&mut s, LeverState::Normal);
    assert!(s.got_cool_hat);
    let mut s = GameSummary::new();
    update_summary_victim(&mut s, LeverState::Normal);
    assert!(s.caused_preventable_tragedy);
    let mut s = GameSummary::new();
    update_summary_darwinism(&mut s, LeverState::Pulled);
    assert!(s.enforced_darwinism);
    let mut s = GameSummary::new();
    update_summary_loop(&mut s, LeverState::Normal);
    assert!(s.did_sick_loop);
    let mut s = GameSummary::new();
    update_summary_shopping_cart(&mut s, LeverState::Pulled);
    assert!(s.returned_shopping_cart);
    let mut s = GameSummary::new();
    update_summary_double_it(&mut s, LeverState::Normal);
    assert!(s.doubled_it);
    let mut s = GameSummary::new();
    update_summary_thomas_the_tank_engine(&mut s);
    assert!(s.watched_thomas_kill_people);
    assert_eq!(s.people_killed, 5);
    let mut s = GameSummary::new();
    update_summary_youtube_prank(&mut s, LeverState::Pulled);
    assert!(s.did_viral_prank);
}

#[test]
fn professors_loan_forgiveness_and_born_lever_puller() {
    let mut s = GameSummary::new();
    update_summary_professors(&mut s, LeverState::Normal);
    assert_eq!((s.people_killed, s.people_saved), (5, 1));
    let mut s = GameSummary::new();
    update_summary_loan_forgiveness(&mut s, LeverState::Normal);
    assert_eq!(s.people_killed, 5);
    assert!(s.caused_preventable_tragedy);
    let mut s = GameSummary::new();
    update_summary_born_lever_puller(&mut s, LeverState::Pulled);
    assert_eq!(s.people_killed, 1);
    assert!(s.caused_preventable_tragedy);
}

#[test]
fn lobster_reducer_counts_lobsters_apart_from_people() {
    let mut s = GameSummary::new();
    update_summary_lobster(&mut s, LeverState::Normal);
    assert_eq!(s.lobsters_killed, 5);
    assert_eq!(s.people_saved, 1);
    let mut s = GameSummary::new();
    update_summary_lobster(&mut s, LeverState::Pulled);
    assert_eq!(s.lobsters_saved, 5);
    assert_eq!(s.people_killed, 1);
}

#[test]
fn self_reducer_reads_the_jump_not_the_lever() {
    let mut s = GameSummary::new();
    update_summary_self(&mut s, SelfJumping::RunOver);
    assert!(s.killed_self);
    assert_eq!(s.people_killed, 1);
    let mut s = GameSummary::new();
    update_summary_self(&mut s, SelfJumping::NotJumping);
    assert!(!s.killed_self);
    assert_eq!(s.people_saved, 1);
}

#[test]
fn reducers_accumulate_across_scenarios() {
    let mut s = GameSummary::new();
    update_summary_original(&mut s, LeverState::Normal);
    update_summary_age(&mut s, LeverState::Pulled);
    assert_eq!((s.people_killed, s.people_saved), (6, 11));
}

#[test]
fn decimal_rendering() {
    assert_eq!(u64_to_dec_string(0), "0");
    assert_eq!(u64_to_dec_string(7), "7");
    assert_eq!(u64_to_dec_string(10), "10");
    assert_eq!(u64_to_dec_string(305), "305");
    assert_eq!(u64_to_dec_string(18_446_744_073_709_551_615), "18446744073709551615");
}

#[test]
fn timer_text_rounds_seconds_up_and_pads() {
    assert_eq!(format_timer_text(20_000), "0:20");
    assert_eq!(format_timer_text(5_000), "0:05");
    assert_eq!(format_timer_text(4_999), "0:05");
    assert_eq!(format_timer_text(500), "0:01");
    assert_eq!(format_timer_text(0), "0:00");
    assert_eq!(format_timer_text(60_000), "1:00");
    assert_eq!(format_timer_text(61_000), "1:01");
    assert_eq!(format_timer_text(600_000), "10:00");
}

#[test]
fn summary_lines_show_counts_and_set_flags_only() {
    let mut s = GameSummary::new();
    s.people_killed = 5;
    s.people_saved = 1;
    s.killed_hitler = true;
    let lines = summary_lines(&s);
    assert_eq!(
        lines,
        vec![
            "- Killed 5 people".to_string(),
            "- Saved 1 people".to_string(),
            "- Killed Hitler".to_string(),
            "- Solved philosophy".to_string(),
        ]
    );
}

#[test]
fn summary_lines_include_lobsters_only_when_nonzero() {
    let mut s = GameSummary::new();
    s.solved_philosophy = false;
    s.lobsters_killed = 5;
    let lines = summary_lines(&s);
    assert_eq!(
        lines,
        vec![
            "- Killed 0 people".to_string(),
            "- Saved 0 people".to_string(),
            "- Killed 5 lobsters".to_string(),
        ]
    );
}
