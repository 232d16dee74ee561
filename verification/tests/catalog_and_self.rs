//! The shipped catalogue, and the self-sacrifice scenario's jump handling.

use trolley_problem::animation::{Animation, AnimationNode};
use trolley_problem::catalog::all_scenarios;
use trolley_problem::scenario::{Scenario, ScenarioUpdateAction};
use trolley_problem::sequencer::{Effect, Sequencer};
use trolley_problem::summary::SummaryAction;
use trolley_problem::transform::Transform2;

fn self_style_scenario() -> Scenario {
    Scenario::builder()
        .text("nobody is in danger")
        .duration_ms(1_000)
        .tracks_normal_texture("self-one-track")
        .lever_normal_texture("self-standing")
        .num_hostages_track_a(0)
        .num_hostages_track_b(0)
        .animation(Animation::new(Transform2::from_xy(298_000, 229_000)).node(
            AnimationNode::new(600, Transform2::from_xy(900_000, 445_000)),
        ))
        .on_update(ScenarioUpdateAction::SelfUpdate)
        .summary_action(SummaryAction::SelfSacrifice)
        .build()
        .unwrap()
}

#[test]
fn the_catalogue_holds_every_dilemma_in_play_order() {
    let scenarios = all_scenarios();
    assert_eq!(scenarios.len(), 17);
    assert_eq!(scenarios[0].summary_action, Some(SummaryAction::Original));
    assert_eq!(scenarios[0].num_hostages_track_a, 5);
    assert_eq!(scenarios[0].num_hostages_track_b, 1);
    assert_eq!(scenarios[16].on_update, Some(ScenarioUpdateAction::SelfUpdate));
    assert_eq!(scenarios[16].animations.len(), 1);
    assert!(scenarios[16].animations[0].lever_state_condition.is_none());
}

#[test]
fn jumping_in_front_of_the_trolley_kills_the_player() {
    let mut seq = Sequencer::new(vec![self_style_scenario()]).unwrap();
    seq.start_game();
    let effects = seq.handle_click(10_000, 10_000);
    assert!(effects.iter().any(|e| matches!(e, Effect::PlayerJumped)));
    let effects = seq.tick(1_000);
    assert!(effects.iter().any(|e| matches!(e, Effect::AnimationStarted { .. })));
    let effects = seq.tick(600);
    assert!(effects.iter().any(|e| matches!(e, Effect::PlayerRunOver)));
    let summary = seq.summary();
    assert!(summary.killed_self);
    assert_eq!(summary.people_killed, 1);
    assert_eq!(summary.people_saved, 0);
}

#[test]
fn staying_put_saves_the_player() {
    let mut seq = Sequencer::new(vec![self_style_scenario()]).unwrap();
    seq.start_game();
    seq.tick(1_000);
    seq.tick(600);
    let summary = seq.summary();
    assert!(!summary.killed_self);
    assert_eq!(summary.people_saved, 1);
    assert_eq!(summary.people_killed, 0);
}

#[test]
fn a_second_jump_click_is_not_reported_again() {
    let mut seq = Sequencer::new(vec![self_style_scenario()]).unwrap();
    seq.start_game();
    seq.handle_click(10_000, 10_000);
    let effects = seq.handle_click(10_000, 10_000);
    assert!(!effects.iter().any(|e| matches!(e, Effect::PlayerJumped)));
}
