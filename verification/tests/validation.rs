//! The validating factory: every rejection comes on exactly the
//! configurations that deserve it.

use trolley_problem::animation::{Animation, AnimationNode};
use trolley_problem::scenario::{Scenario, ScenarioBuilder, ScenarioError};
use trolley_problem::sequencer::{Sequencer, SequencerError};
use trolley_problem::states::LeverState;
use trolley_problem::transform::Transform2;

fn unconditional_animation() -> Animation {
    Animation::new(Transform2::from_xy(298_000, 229_000)).node(
        AnimationNode::new(100, Transform2::from_xy(900_000, 445_000)),
    )
}

fn complete_builder() -> ScenarioBuilder {
    Scenario::builder()
        .text("a dilemma")
        .duration_ms(1_000)
        .tracks_normal_texture("tracks")
        .lever_normal_texture("lever")
        .num_hostages_track_a(0)
        .num_hostages_track_b(0)
        .animation(unconditional_animation())
}

#[test]
fn a_complete_configuration_builds() {
    let s = complete_builder().build().unwrap();
    assert_eq!(s.duration_ms, 1_000);
    assert_eq!(s.text, "a dilemma");
    assert_eq!(s.animations.len(), 1);
}

#[test]
fn missing_text_is_rejected() {
    let b = Scenario::builder().duration_ms(1_000);
    assert_eq!(b.build().unwrap_err(), ScenarioError::MissingText);
}

#[test]
fn missing_duration_is_rejected() {
    let b = Scenario::builder().text("t");
    assert_eq!(b.build().unwrap_err(), ScenarioError::MissingDuration);
}

#[test]
fn zero_duration_is_rejected() {
    let b = Scenario::builder().text("t").duration_ms(0);
    assert_eq!(b.build().unwrap_err(), ScenarioError::InvalidDuration);
}

#[test]
fn missing_tracks_texture_is_rejected() {
    let b = Scenario::builder().text("t").duration_ms(1_000);
    assert_eq!(b.build().unwrap_err(), ScenarioError::MissingTracksTexture);
}

#[test]
fn missing_lever_texture_is_rejected() {
    let b = Scenario::builder().text("t").duration_ms(1_000).tracks_normal_texture("tracks");
    assert_eq!(b.build().unwrap_err(), ScenarioError::MissingLeverTexture);
}

#[test]
fn missing_hostage_count_is_rejected() {
    let b = Scenario::builder()
        .text("t")
        .duration_ms(1_000)
        .tracks_normal_texture("tracks")
        .lever_normal_texture("lever")
        .num_hostages_track_a(5);
    assert_eq!(b.build().unwrap_err(), ScenarioError::MissingHostageCount);
}

#[test]
fn out_of_range_hostage_position_is_rejected() {
    let b = complete_builder().hostages_track_a_pos(2_000_000_000, 0);
    assert_eq!(b.build().unwrap_err(), ScenarioError::HostagePositionOutOfRange);
}

#[test]
fn no_animations_is_rejected() {
    let b = Scenario::builder()
        .text("t")
        .duration_ms(1_000)
        .tracks_normal_texture("tracks")
        .lever_normal_texture("lever")
        .num_hostages_track_a(0)
        .num_hostages_track_b(0);
    assert_eq!(b.build().unwrap_err(), ScenarioError::NoAnimations);
}

#[test]
fn an_animation_without_nodes_is_rejected() {
    let b = Scenario::builder()
        .text("t")
        .duration_ms(1_000)
        .tracks_normal_texture("tracks")
        .lever_normal_texture("lever")
        .num_hostages_track_a(0)
        .num_hostages_track_b(0)
        .animation(Animation::new(Transform2::from_xy(0, 0)));
    assert_eq!(b.build().unwrap_err(), ScenarioError::EmptyAnimation);
}

#[test]
fn a_zero_duration_node_is_rejected() {
    let bad = Animation::new(Transform2::from_xy(0, 0)).node(
        AnimationNode::new(0, Transform2::from_xy(1_000, 1_000)),
    );
    let b = Scenario::builder()
        .text("t")
        .duration_ms(1_000)
        .tracks_normal_texture("tracks")
        .lever_normal_texture("lever")
        .num_hostages_track_a(0)
        .num_hostages_track_b(0)
        .animation(bad);
    assert_eq!(b.build().unwrap_err(), ScenarioError::InvalidNodeDuration);
}

#[test]
fn an_out_of_range_pose_is_rejected() {
    let bad = Animation::new(Transform2::from_xy(0, 0)).node(
        AnimationNode::new(100, Transform2::from_xy(999_999_999, 0)),
    );
    let b = Scenario::builder()
        .text("t")
        .duration_ms(1_000)
        .tracks_normal_texture("tracks")
        .lever_normal_texture("lever")
        .num_hostages_track_a(0)
        .num_hostages_track_b(0)
        .animation(bad);
    assert_eq!(b.build().unwrap_err(), ScenarioError::TransformOutOfRange);
}

#[test]
fn guards_must_cover_every_lever_state() {
    let only_normal = Animation::new(Transform2::from_xy(0, 0)).on_lever_state(
        LeverState::Normal,
    ).node(AnimationNode::new(100, Transform2::from_xy(1_000, 1_000)));
    let b = Scenario::builder()
        .text("t")
        .duration_ms(1_000)
        .tracks_normal_texture("tracks")
        .lever_normal_texture("lever")
        .num_hostages_track_a(0)
        .num_hostages_track_b(0)
        .animation(only_normal);
    assert_eq!(
        b.build().unwrap_err(),
        ScenarioError::NoAnimationForLever(LeverState::Pulled)
    );
}

#[test]
fn ambiguous_guards_are_rejected() {
    let b = Scenario::builder()
        .text("t")
        .duration_ms(1_000)
        .tracks_normal_texture("tracks")
        .lever_normal_texture("lever")
        .num_hostages_track_a(0)
        .num_hostages_track_b(0)
        .animation(unconditional_animation())
        .animation(unconditional_animation());
    assert_eq!(
        b.build().unwrap_err(),
        ScenarioError::MultipleAnimationsForLever(LeverState::Normal)
    );
}

#[test]
fn the_sequencer_rejects_a_tampered_scenario() {
    let mut s = complete_builder().build().unwrap();
    s.duration_ms = 0;
    let r = Sequencer::new(vec![s]);
    assert_eq!(
        r.err().unwrap(),
        SequencerError::InvalidScenario { scenario: 0, error: ScenarioError::InvalidDuration }
    );
}
