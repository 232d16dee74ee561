//! The sequencer driven end to end: countdown expiry, animation selection,
//! node sequencing, summary accumulation and the walk through the whole
//! catalogue.

use trolley_problem::animation::{Animation, AnimationNode};
use trolley_problem::catalog::all_scenarios;
use trolley_problem::scenario::Scenario;
use trolley_problem::sequencer::{Effect, Sequencer};
use trolley_problem::states::{GameState, LeverState};
use trolley_problem::summary::SummaryAction;
use trolley_problem::transform::Transform2;

const LEVER_X: i64 = 378_000;
const LEVER_Y: i64 = 168_000;

fn track_a_animation(durations: &[u64]) -> Animation {
    let mut a = Animation::new(Transform2::from_xy(298_000, 229_000)).on_lever_state(
        LeverState::Normal,
    );
    for d in durations {
        a = a.node(AnimationNode::new(*d, Transform2::from_xy(900_000, 445_000)));
    }
    a
}

fn track_b_animation(durations: &[u64]) -> Animation {
    let mut a = Animation::new(Transform2::from_xy(298_000, 229_000)).on_lever_state(
        LeverState::Pulled,
    );
    for d in durations {
        a = a.node(AnimationNode::new(*d, Transform2::from_xy(900_000, 260_000)));
    }
    a
}

fn simple_scenario(a_durations: &[u64], b_durations: &[u64]) -> Scenario {
    Scenario::builder()
        .text("a test dilemma")
        .duration_ms(1_000)
        .tracks_normal_texture("tracks")
        .tracks_switched_texture("tracks-switched")
        .lever_normal_texture("lever")
        .lever_switched_texture("lever-switched")
        .num_hostages_track_a(5)
        .num_hostages_track_b(1)
        .animation(track_a_animation(a_durations))
        .animation(track_b_animation(b_durations))
        .summary_action(SummaryAction::Original)
        .build()
        .unwrap()
}

fn sequencer_of(scenarios: Vec<Scenario>) -> Sequencer {
    Sequencer::new(scenarios).unwrap()
}

#[test]
fn countdown_fires_its_transition_exactly_once() {
    let mut seq = sequencer_of(vec![simple_scenario(&[100_000], &[100_000])]);
    seq.start_game();
    let mut started = 0;
    for delta in [300, 300, 300, 50, 25, 25, 1_000, 10_000] {
        let effects = seq.tick(delta);
        started += effects
            .iter()
            .filter(|e| matches!(e, Effect::AnimationStarted { .. }))
            .count();
    }
    assert_eq!(started, 1);
}

#[test]
fn node_sequencing_catches_up_within_one_huge_tick() {
    let mut seq = sequencer_of(vec![simple_scenario(&[100, 200, 300], &[100])]);
    seq.start_game();
    seq.tick(1_000);
    let effects = seq.tick(10_000);
    let nodes: Vec<usize> = effects
        .iter()
        .filter_map(|e| match e {
            Effect::NodeEnded { node, .. } => Some(*node),
            _ => None,
        })
        .collect();
    assert_eq!(nodes, vec![0, 1, 2]);
    assert!(effects.iter().any(|e| matches!(e, Effect::AnimationComplete { .. })));
}

#[test]
fn node_sequencing_tick_by_tick_matches_index_order() {
    let mut seq = sequencer_of(vec![simple_scenario(&[100, 200, 300], &[100])]);
    seq.start_game();
    seq.tick(1_000);
    let mut nodes: Vec<usize> = Vec::new();
    let mut complete = 0;
    for _ in 0..100 {
        let effects = seq.tick(70);
        for e in &effects {
            match e {
                Effect::NodeEnded { node, .. } => nodes.push(*node),
                Effect::AnimationComplete { .. } => complete += 1,
                _ => {},
            }
        }
    }
    assert_eq!(nodes, vec![0, 1, 2]);
    assert_eq!(complete, 1);
}

#[test]
fn pulled_lever_always_selects_the_pulled_guarded_animation() {
    let mut seq = sequencer_of(vec![simple_scenario(&[100], &[100])]);
    seq.start_game();
    let click_effects = seq.handle_click(LEVER_X, LEVER_Y);
    assert!(click_effects.iter().any(|e| matches!(e, Effect::LeverChanged { pulled: true })));
    let effects = seq.tick(1_000);
    assert!(effects.iter().any(|e| matches!(e, Effect::AnimationStarted { animation: 1, .. })));
    assert!(!effects.iter().any(|e| matches!(e, Effect::AnimationStarted { animation: 0, .. })));
}

#[test]
fn pulled_lever_selects_by_guard_not_by_declaration_order() {
    let scenario = Scenario::builder()
        .text("declared the other way round")
        .duration_ms(1_000)
        .tracks_normal_texture("tracks")
        .tracks_switched_texture("tracks-switched")
        .lever_normal_texture("lever")
        .lever_switched_texture("lever-switched")
        .num_hostages_track_a(0)
        .num_hostages_track_b(0)
        .animation(track_b_animation(&[100]))
        .animation(track_a_animation(&[100]))
        .build()
        .unwrap();
    let mut seq = sequencer_of(vec![scenario]);
    seq.start_game();
    seq.handle_click(LEVER_X, LEVER_Y);
    let effects = seq.tick(1_000);
    assert!(effects.iter().any(|e| matches!(e, Effect::AnimationStarted { animation: 0, .. })));
}

#[test]
fn unguarded_animation_plays_identically_whatever_the_lever() {
    let unconditional = Scenario::builder()
        .text("one track only")
        .duration_ms(1_000)
        .tracks_normal_texture("tracks")
        .tracks_switched_texture("tracks-switched")
        .lever_normal_texture("lever")
        .lever_switched_texture("lever-switched")
        .num_hostages_track_a(0)
        .num_hostages_track_b(0)
        .animation(Animation::new(Transform2::from_xy(298_000, 229_000)).node(
            AnimationNode::new(100, Transform2::from_xy(900_000, 445_000)),
        ).node(AnimationNode::new(200, Transform2::from_xy(950_000, 445_000))))
        .build()
        .unwrap();

    let mut run = |pull: bool| -> Vec<Effect> {
        let mut seq = sequencer_of(vec![unconditional.clone()]);
        seq.start_game();
        if pull {
            seq.handle_click(LEVER_X, LEVER_Y);
        }
        let mut all = seq.tick(1_000);
        all.extend(seq.tick(1_000));
        all.retain(|e| {
            matches!(
                e,
                Effect::AnimationStarted { .. } | Effect::NodeEnded { .. }
                    | Effect::AnimationComplete { .. }
            )
        });
        all
    };
    let normal_run = run(false);
    let pulled_run = run(true);
    assert_eq!(normal_run, pulled_run);
}

#[test]
fn original_scenario_without_pull_kills_five_saves_one() {
    let mut seq = sequencer_of(all_scenarios());
    seq.start_game();
    seq.tick(20_000);
    seq.tick(2_000);
    seq.tick(4_000);
    let summary = seq.summary();
    assert_eq!(summary.people_killed, 5);
    assert_eq!(summary.people_saved, 1);
}

#[test]
fn original_scenario_with_pull_kills_one_saves_five() {
    let mut seq = sequencer_of(all_scenarios());
    seq.start_game();
    seq.handle_click(LEVER_X, LEVER_Y);
    seq.tick(20_000);
    seq.tick(1_000);
    seq.tick(1_000);
    seq.tick(3_000);
    let summary = seq.summary();
    assert_eq!(summary.people_killed, 1);
    assert_eq!(summary.people_saved, 5);
}

#[test]
fn whole_catalogue_without_pulls_reaches_the_end_screen() {
    let mut seq = sequencer_of(all_scenarios());
    seq.start_game();
    let mut guard = 0;
    let mut ended = false;
    while seq.game_state() != GameState::EndScreen {
        let effects = seq.tick(500);
        if effects.iter().any(|e| matches!(e, Effect::GameEnded)) {
            ended = true;
        }
        guard += 1;
        assert!(guard < 10_000);
    }
    assert!(ended);
    let summary = seq.summary();
    assert_eq!(summary.people_killed, 53);
    assert_eq!(summary.people_saved, 15);
    assert_eq!(summary.lobsters_killed, 5);
    assert_eq!(summary.lobsters_saved, 0);
    assert!(summary.killed_hitler);
    assert!(summary.got_cool_hat);
    assert!(summary.caused_preventable_tragedy);
    assert!(!summary.enforced_darwinism);
    assert!(summary.did_sick_loop);
    assert!(!summary.returned_shopping_cart);
    assert!(summary.doubled_it);
    assert!(summary.watched_thomas_kill_people);
    assert!(!summary.did_viral_prank);
    assert!(!summary.killed_self);
    assert!(summary.solved_philosophy);
}

#[test]
fn clicks_outside_the_lever_rectangle_do_nothing() {
    let mut seq = sequencer_of(vec![simple_scenario(&[100], &[100])]);
    seq.start_game();
    let effects = seq.handle_click(10_000, 10_000);
    assert!(effects.is_empty());
    let effects = seq.tick(1_000);
    assert!(effects.iter().any(|e| matches!(e, Effect::AnimationStarted { animation: 0, .. })));
}

#[test]
fn lever_without_switched_textures_plays_sound_but_does_not_toggle() {
    let one_way = Scenario::builder()
        .text("no switching here")
        .duration_ms(1_000)
        .tracks_normal_texture("tracks")
        .lever_normal_texture("lever")
        .num_hostages_track_a(0)
        .num_hostages_track_b(0)
        .animation(Animation::new(Transform2::from_xy(298_000, 229_000)).node(
            AnimationNode::new(100, Transform2::from_xy(900_000, 445_000)),
        ))
        .build()
        .unwrap();
    let mut seq = sequencer_of(vec![one_way]);
    seq.start_game();
    let effects = seq.handle_click(LEVER_X, LEVER_Y);
    assert!(effects.iter().any(|e| matches!(e, Effect::PlaySwitchSound)));
    assert!(!effects.iter().any(|e| matches!(e, Effect::LeverChanged { .. })));
}

#[test]
fn lever_toggles_back_to_normal_on_a_second_click() {
    let mut seq = sequencer_of(vec![simple_scenario(&[100], &[100])]);
    seq.start_game();
    seq.handle_click(LEVER_X, LEVER_Y);
    let effects = seq.handle_click(LEVER_X, LEVER_Y);
    assert!(effects.iter().any(|e| matches!(e, Effect::LeverChanged { pulled: false })));
    let effects = seq.tick(1_000);
    assert!(effects.iter().any(|e| matches!(e, Effect::AnimationStarted { animation: 0, .. })));
}

#[test]
fn post_animation_wait_leads_to_the_next_scenario() {
    let scenarios = vec![simple_scenario(&[100], &[100]), simple_scenario(&[100], &[100])];
    let mut seq = sequencer_of(scenarios);
    seq.start_game();
    seq.tick(1_000);
    seq.tick(100);
    let effects = seq.tick(3_000);
    assert!(effects.iter().any(|e| matches!(e, Effect::ScenarioExited { scenario: 0 })));
    assert!(effects.iter().any(|e| matches!(e, Effect::ScenarioEntered { scenario: 1, .. })));
}

#[test]
fn back_to_menu_resets_the_summary() {
    let mut seq = sequencer_of(vec![simple_scenario(&[100], &[100])]);
    seq.start_game();
    seq.tick(1_000);
    seq.tick(100);
    seq.tick(3_000);
    assert_eq!(seq.game_state(), GameState::EndScreen);
    assert_eq!(seq.summary().people_killed, 5);
    seq.back_to_menu();
    assert_eq!(seq.game_state(), GameState::InMenu);
    assert_eq!(seq.summary().people_killed, 0);
}

#[test]
fn music_pause_resumes_after_its_duration() {
    let mut seq = sequencer_of(vec![simple_scenario(&[100_000], &[100_000])]);
    seq.start_game();
    seq.pause_music(1_000);
    let effects = seq.tick(400);
    assert!(!effects.iter().any(|e| matches!(e, Effect::ResumeMusic)));
    let effects = seq.tick(700);
    assert!(effects.iter().any(|e| matches!(e, Effect::ResumeMusic)));
    let effects = seq.tick(700);
    assert!(!effects.iter().any(|e| matches!(e, Effect::ResumeMusic)));
}

#[test]
fn empty_scenario_list_goes_straight_to_the_end_screen() {
    let mut seq = sequencer_of(Vec::new());
    let effects = seq.start_game();
    assert!(effects.iter().any(|e| matches!(e, Effect::GameEnded)));
    assert_eq!(seq.game_state(), GameState::EndScreen);
}

#[test]
fn whole_catalogue_with_pulls_reaches_the_end_screen() {
    let mut seq = sequencer_of(all_scenarios());
    seq.start_game();
    seq.handle_click(LEVER_X, LEVER_Y);
    let mut guard = 0;
    while seq.game_state() != GameState::EndScreen {
        let effects = seq.tick(500);
        if effects.iter().any(|e| matches!(e, Effect::ScenarioEntered { .. })) {
            seq.handle_click(LEVER_X, LEVER_Y);
        }
        guard += 1;
        assert!(guard < 10_000);
    }
    let summary = seq.summary();
    assert_eq!(summary.people_killed, 20);
    assert_eq!(summary.people_saved, 48);
    assert_eq!(summary.lobsters_killed, 0);
    assert_eq!(summary.lobsters_saved, 5);
    assert!(summary.killed_hitler);
    assert!(!summary.got_cool_hat);
    assert!(summary.caused_preventable_tragedy);
    assert!(summary.enforced_darwinism);
    assert!(!summary.did_sick_loop);
    assert!(summary.returned_shopping_cart);
    assert!(!summary.doubled_it);
    assert!(summary.watched_thomas_kill_people);
    assert!(summary.did_viral_prank);
    assert!(summary.killed_self);
    assert!(summary.solved_philosophy);
}

#[test]
fn animation_pose_is_canvas_normalized_like_the_countdown_pose() {
    let mut seq = sequencer_of(vec![simple_scenario(&[1_000], &[1_000])]);
    seq.start_game();
    seq.tick(1_000);
    let pose = seq.animation_trolley_transform();
    assert_eq!(pose.x, 298_000 - 400_000);
    assert_eq!(pose.y, (600_000 - 229_000) - 300_000);
    assert_eq!(pose.rot_mdeg, 0);
    assert_eq!(pose.scale_milli, 1_000);
}
