//! The built-in scenario catalogue: every dilemma the game ships with, in
//! play order, authored with the scenario and animation builders and
//! validated at construction.

use vstd::prelude::*;
use vstd::string::StringExecFns;
use crate::animation::{
    lemma_single_unguarded_partition, lemma_two_guard_partition, Animation, AnimationFn,
    AnimationNode, NodeAction, StartAction,
};
use crate::constants::{
    approaching_trolley_side_end_transform, next_person_switch_transform,
    STANDARD_HOSTAGES_POS_TRACK_A_X_MPX, STANDARD_HOSTAGES_POS_TRACK_A_Y_MPX,
    STANDARD_HOSTAGES_POS_TRACK_B_X_MPX, STANDARD_HOSTAGES_POS_TRACK_B_Y_MPX,
};
use crate::scenario::{
    build_valid, lemma_wf_animations_error_none, Scenario, ScenarioEndAction,
    ScenarioStartAction, ScenarioUpdateAction,
};
use crate::states::LeverState;
use crate::summary::SummaryAction;
use crate::transform::Transform2;

verus! {

/// Generates a standard animation for the trolley on track A: from the
/// side-on approach pose, two seconds ahead to the track A hostages —
/// wounding them — then four seconds off the right edge.
pub fn standard_animation_track_a(wounded_texture: Option<&str>) -> (r: Animation)
    ensures
        r.wf(),
        r.lever_state_condition == Some(LeverState::Normal),
        r.start_action is None,
        r.start_transform == crate::constants::spec_approaching_trolley_side_end_transform(),
        r.nodes@ == seq![
            (AnimationNode {
                duration_ms: 2_000,
                transform: (Transform2 {
                    x: STANDARD_HOSTAGES_POS_TRACK_A_X_MPX,
                    y: STANDARD_HOSTAGES_POS_TRACK_A_Y_MPX,
                    rot_mdeg: 0,
                    scale_milli: crate::transform::SCALE_ONE_MILLI,
                }),
                animation_fn: AnimationFn::Linear,
                end_action: Some(NodeAction::ShowWoundedTrackA),
            }),
            (AnimationNode {
                duration_ms: 4_000,
                transform: (Transform2 {
                    x: 900_000,
                    y: 445_000,
                    rot_mdeg: 0,
                    scale_milli: crate::transform::SCALE_ONE_MILLI,
                }),
                animation_fn: AnimationFn::Linear,
                end_action: None,
            }),
        ],
        (match wounded_texture {
            Some(t) => r.wounded_texture matches Some(w) && w@ == t@,
            None => r.wounded_texture is None,
        }),
{
    let mut animation = Animation::new(approaching_trolley_side_end_transform()).on_lever_state(
        LeverState::Normal,
    ).node(
        AnimationNode::new(
            2_000,
            Transform2::from_xy(
                STANDARD_HOSTAGES_POS_TRACK_A_X_MPX,
                STANDARD_HOSTAGES_POS_TRACK_A_Y_MPX,
            ),
        ).end_action(NodeAction::ShowWoundedTrackA),
    ).node(AnimationNode::new(4_000, Transform2::from_xy(900_000, 445_000)));
    if let Some(texture) = wounded_texture {
        animation = animation.with_wounded_texture(String::from_str(texture));
    }
    proof {
        assert(animation.nodes@ =~= seq![animation.nodes@[0], animation.nodes@[1]]);
    }
    animation
}

/// Generates a standard animation for the trolley on track B: from the
/// side-on approach pose, one second through the switch — straightening the
/// trolley — one second up to the track B hostages — wounding them — then
/// three seconds off the right edge.
pub fn standard_animation_track_b(wounded_texture: Option<&str>) -> (r: Animation)
    ensures
        r.wf(),
        r.lever_state_condition == Some(LeverState::Pulled),
        r.start_action == Some(StartAction::TurnTrolleySwitchedStart),
        r.start_transform == crate::constants::spec_approaching_trolley_side_end_transform(),
        r.nodes@ == seq![
            (AnimationNode {
                duration_ms: 1_000,
                transform: (Transform2 {
                    x: 400_000,
                    y: 190_000,
                    rot_mdeg: 0,
                    scale_milli: crate::transform::SCALE_ONE_MILLI,
                }),
                animation_fn: AnimationFn::Linear,
                end_action: Some(NodeAction::TurnTrolleySwitchedEnd),
            }),
            (AnimationNode {
                duration_ms: 1_000,
                transform: (Transform2 {
                    x: STANDARD_HOSTAGES_POS_TRACK_B_X_MPX,
                    y: STANDARD_HOSTAGES_POS_TRACK_B_Y_MPX,
                    rot_mdeg: 0,
                    scale_milli: crate::transform::SCALE_ONE_MILLI,
                }),
                animation_fn: AnimationFn::Linear,
                end_action: Some(NodeAction::ShowWoundedTrackB),
            }),
            (AnimationNode {
                duration_ms: 3_000,
                transform: (Transform2 {
                    x: 900_000,
                    y: 260_000,
                    rot_mdeg: 0,
                    scale_milli: crate::transform::SCALE_ONE_MILLI,
                }),
                animation_fn: AnimationFn::Linear,
                end_action: None,
            }),
        ],
        (match wounded_texture {
            Some(t) => r.wounded_texture matches Some(w) && w@ == t@,
            None => r.wounded_texture is None,
        }),
{
    let mut animation = Animation::new(approaching_trolley_side_end_transform()).on_lever_state(
        LeverState::Pulled,
    ).with_start_action(StartAction::TurnTrolleySwitchedStart).node(
        AnimationNode::new(1_000, Transform2::from_xy(400_000, 190_000)).end_action(
            NodeAction::TurnTrolleySwitchedEnd,
        ),
    ).node(
        AnimationNode::new(
            1_000,
            Transform2::from_xy(
                STANDARD_HOSTAGES_POS_TRACK_B_X_MPX,
                STANDARD_HOSTAGES_POS_TRACK_B_Y_MPX,
            ),
        ).end_action(NodeAction::ShowWoundedTrackB),
    ).node(AnimationNode::new(3_000, Transform2::from_xy(900_000, 260_000)));
    if let Some(texture) = wounded_texture {
        animation = animation.with_wounded_texture(String::from_str(texture));
    }
    proof {
        assert(animation.nodes@ =~= seq![animation.nodes@[0], animation.nodes@[1], animation.nodes@[2]]);
    }
    animation
}

/// The original five-against-one dilemma.
pub fn scenario_original() -> (r: Scenario)
    ensures
        r.wf(),
        r.summary_action == Some(SummaryAction::Original),
        r.duration_ms == 20_000,
        r.num_hostages_track_a == 5,
        r.num_hostages_track_b == 1,
{
    let anim_a = standard_animation_track_a(Some("original-hostage-5-wounded"));
    let anim_b = standard_animation_track_b(Some("original-hostage-1-wounded"));
    let b = Scenario::builder().text(
        "A trolley is headed towards a group of five people. You can intervene and click on the lever to pull it and switch the tracks so that only one person will be killed. Do you pull the lever?",
    ).duration_ms(20_000).hostages_track_a_pos(
        STANDARD_HOSTAGES_POS_TRACK_A_X_MPX,
        STANDARD_HOSTAGES_POS_TRACK_A_Y_MPX,
    ).hostages_track_b_pos(
        STANDARD_HOSTAGES_POS_TRACK_B_X_MPX,
        STANDARD_HOSTAGES_POS_TRACK_B_Y_MPX,
    ).tracks_normal_texture("original-tracks-normal").tracks_switched_texture(
        "original-tracks-switched",
    ).lever_normal_texture("original-lever-normal").lever_switched_texture(
        "original-lever-switched",
    ).hostages_track_a_normal_texture("original-hostage-5").hostages_track_b_normal_texture(
        "original-hostage-1",
    ).num_hostages_track_a(5).num_hostages_track_b(1).animation(anim_a).animation(
        anim_b,
    ).summary_action(SummaryAction::Original);
    proof {
        lemma_wf_animations_error_none(b.animations@, 0);
        lemma_two_guard_partition(b.animations@);
    }
    build_valid(b)
}

/// Ninety-year-olds against a child.
pub fn scenario_age() -> (r: Scenario)
    ensures
        r.wf(),
        r.summary_action == Some(SummaryAction::Age),
        r.duration_ms == 20_000,
{
    let anim_a = standard_animation_track_a(Some("age-hostage-10-wounded"));
    let anim_b = standard_animation_track_b(Some("original-hostage-1-wounded"));
    let b = Scenario::builder().text(
        "Everyone on the lower track is 90 years old. There is a child on the upper track. Do you pull the lever?",
    ).duration_ms(20_000).hostages_track_a_pos(
        STANDARD_HOSTAGES_POS_TRACK_A_X_MPX,
        STANDARD_HOSTAGES_POS_TRACK_A_Y_MPX,
    ).hostages_track_b_pos(
        STANDARD_HOSTAGES_POS_TRACK_B_X_MPX,
        STANDARD_HOSTAGES_POS_TRACK_B_Y_MPX,
    ).tracks_normal_texture("original-tracks-normal").tracks_switched_texture(
        "original-tracks-switched",
    ).lever_normal_texture("original-lever-normal").lever_switched_texture(
        "original-lever-switched",
    ).hostages_track_a_normal_texture("age-hostage-10").hostages_track_b_normal_texture(
        "original-hostage-1",
    ).num_hostages_track_a(10).num_hostages_track_b(1).animation(anim_a).animation(
        anim_b,
    ).summary_action(SummaryAction::Age);
    proof {
        lemma_wf_animations_error_none(b.animations@, 0);
        lemma_two_guard_partition(b.animations@);
    }
    build_valid(b)
}

/// The clone of Hitler.
pub fn scenario_clone() -> (r: Scenario)
    ensures
        r.wf(),
        r.summary_action == Some(SummaryAction::CloneDilemma),
        r.duration_ms == 25_000,
{
    let anim_a = standard_animation_track_a(None);
    let anim_b = standard_animation_track_b(Some("original-hostage-1-wounded"));
    let b = Scenario::builder().text(
        "If you pull the lever, the trolley will kill a clone of Hitler. The clone has all of Hitler's memories and fully believes that they are him and that they committed all of his actions, even though they didn't. Do you pull the lever?",
    ).duration_ms(25_000).hostages_track_b_pos(
        STANDARD_HOSTAGES_POS_TRACK_B_X_MPX,
        STANDARD_HOSTAGES_POS_TRACK_B_Y_MPX,
    ).tracks_normal_texture("original-tracks-normal").tracks_switched_texture(
        "original-tracks-switched",
    ).lever_normal_texture("original-lever-normal").lever_switched_texture(
        "original-lever-switched",
    ).hostages_track_b_normal_texture("original-hostage-1").num_hostages_track_a(
        0,
    ).num_hostages_track_b(1).animation(anim_a).animation(anim_b).summary_action(
        SummaryAction::CloneDilemma,
    );
    proof {
        lemma_wf_animations_error_none(b.animations@, 0);
        lemma_two_guard_partition(b.animations@);
    }
    build_valid(b)
}

/// Hitler riding the trolley toward a cliff.
pub fn scenario_cliff() -> (r: Scenario)
    ensures
        r.wf(),
        r.summary_action == Some(SummaryAction::Cliff),
        r.duration_ms == 25_000,
{
    let anim_a = Animation::new(approaching_trolley_side_end_transform()).on_lever_state(
        LeverState::Normal,
    ).with_wounded_texture(String::from_str("original-hostage-5-wounded")).node(
        AnimationNode::new(
            2_000,
            Transform2::from_xy(
                STANDARD_HOSTAGES_POS_TRACK_A_X_MPX,
                STANDARD_HOSTAGES_POS_TRACK_A_Y_MPX,
            ),
        ).end_action(NodeAction::ShowWoundedTrackA),
    ).node(AnimationNode::new(1_000, Transform2::from_xy(715_000, 375_000))).node(
        AnimationNode::new(
            2_000,
            Transform2::identity().with_position(785_000, 460_000).with_scale(0).with_rotation(
                -135_000,
            ),
        ),
    );
    let anim_b = standard_animation_track_b(None);
    let b = Scenario::builder().text(
        "Hitler is the only passenger on the trolley. If you do nothing, five innocent people will be killed, and the trolley will fall off the cliff and explode. If you pull the lever, the innocents will be spared, but Hitler will escape to freedom.",
    ).duration_ms(25_000).hostages_track_a_pos(
        STANDARD_HOSTAGES_POS_TRACK_A_X_MPX,
        STANDARD_HOSTAGES_POS_TRACK_A_Y_MPX,
    ).tracks_normal_texture("original-tracks-normal").tracks_switched_texture(
        "original-tracks-switched",
    ).lever_normal_texture("original-lever-normal").lever_switched_texture(
        "original-lever-switched",
    ).hostages_track_a_normal_texture("original-hostage-5").num_hostages_track_a(
        5,
    ).num_hostages_track_b(0).animation(anim_a).animation(anim_b).on_start(
        ScenarioStartAction::CliffStart,
    ).on_end(ScenarioEndAction::CliffEnd).summary_action(SummaryAction::Cliff);
    proof {
        lemma_wf_animations_error_none(b.animations@, 0);
        lemma_two_guard_partition(b.animations@);
    }
    build_valid(b)
}

/// The guy with the really cool hat.
pub fn scenario_cool_hat() -> (r: Scenario)
    ensures
        r.wf(),
        r.summary_action == Some(SummaryAction::CoolHat),
        r.duration_ms == 15_000,
{
    let anim_a = standard_animation_track_a(Some("original-hostage-5-wounded"));
    let anim_b = standard_animation_track_b(Some("hat-hostage-wounded"));
    let b = Scenario::builder().text(
        "You can pull the lever to save five people, but you would kill the guy with the really cool hat. Do you pull the lever?",
    ).duration_ms(15_000).hostages_track_a_pos(
        STANDARD_HOSTAGES_POS_TRACK_A_X_MPX,
        STANDARD_HOSTAGES_POS_TRACK_A_Y_MPX,
    ).hostages_track_b_pos(
        STANDARD_HOSTAGES_POS_TRACK_B_X_MPX,
        STANDARD_HOSTAGES_POS_TRACK_B_Y_MPX,
    ).tracks_normal_texture("original-tracks-normal").tracks_switched_texture(
        "original-tracks-switched",
    ).lever_normal_texture("original-lever-normal").lever_switched_texture(
        "original-lever-switched",
    ).hostages_track_a_normal_texture("original-hostage-5").hostages_track_b_normal_texture(
        "hat-hostage",
    ).num_hostages_track_a(5).num_hostages_track_b(1).animation(anim_a).animation(anim_b).on_end(
        ScenarioEndAction::CoolHatEnd,
    ).summary_action(SummaryAction::CoolHat);
    proof {
        lemma_wf_animations_error_none(b.animations@, 0);
        lemma_two_guard_partition(b.animations@);
    }
    build_valid(b)
}

/// The self-declared victim on the track.
pub fn scenario_victim() -> (r: Scenario)
    ensures
        r.wf(),
        r.summary_action == Some(SummaryAction::Victim),
        r.duration_ms == 25_000,
{
    let anim_a = standard_animation_track_a(Some("victim-wounded"));
    let anim_b = standard_animation_track_b(None);
    let b = Scenario::builder().text(
        "The person on the track claims that \"Society needs to pull the lever.\" You have told them to just walk off the tracks. Is this person really the victim if they have knowingly done this to themselves? Will you be responsible if they die?",
    ).duration_ms(25_000).hostages_track_a_pos(
        STANDARD_HOSTAGES_POS_TRACK_A_X_MPX,
        STANDARD_HOSTAGES_POS_TRACK_A_Y_MPX,
    ).tracks_normal_texture("original-tracks-normal").tracks_switched_texture(
        "original-tracks-switched",
    ).lever_normal_texture("original-lever-normal").lever_switched_texture(
        "original-lever-switched",
    ).hostages_track_a_normal_texture("victim").num_hostages_track_a(1).num_hostages_track_b(
        0,
    ).animation(anim_a).animation(anim_b).summary_action(SummaryAction::Victim);
    proof {
        lemma_wf_animations_error_none(b.animations@, 0);
        lemma_two_guard_partition(b.animations@);
    }
    build_valid(b)
}

/// Natural selection applied to untied pedestrians.
pub fn scenario_darwinism() -> (r: Scenario)
    ensures
        r.wf(),
        r.summary_action == Some(SummaryAction::Darwinism),
        r.duration_ms == 30_000,
{
    let anim_a = standard_animation_track_a(Some("darwinism-hostage-1-wounded"));
    let anim_b = standard_animation_track_b(Some("darwinism-hostage-5-wounded"));
    let b = Scenario::builder().text(
        "A person on the lower track is not tied down, and can walk away if he is smart enough to recognize the danger of the trolley. If he is not smart enough, natural selection will do its job and eliminate him from the gene pool, making humanity smarter. The upper track has 5 untied persons, which could potentially apply natural selection to 4 extra people, making humanity even smarter. Do you pull the lever?",
    ).duration_ms(30_000).hostages_track_a_pos(
        STANDARD_HOSTAGES_POS_TRACK_A_X_MPX,
        STANDARD_HOSTAGES_POS_TRACK_A_Y_MPX,
    ).hostages_track_b_pos(
        STANDARD_HOSTAGES_POS_TRACK_B_X_MPX,
        STANDARD_HOSTAGES_POS_TRACK_B_Y_MPX,
    ).tracks_normal_texture("original-tracks-normal").tracks_switched_texture(
        "original-tracks-switched",
    ).lever_normal_texture("original-lever-normal").lever_switched_texture(
        "original-lever-switched",
    ).hostages_track_a_normal_texture("darwinism-hostage-1").hostages_track_b_normal_texture(
        "darwinism-hostage-5",
    ).num_hostages_track_a(1).num_hostages_track_b(5).animation(anim_a).animation(
        anim_b,
    ).summary_action(SummaryAction::Darwinism);
    proof {
        lemma_wf_animations_error_none(b.animations@, 0);
        lemma_two_guard_partition(b.animations@);
    }
    build_valid(b)
}

/// The totally sick loop-da-loop.
pub fn scenario_loop() -> (r: Scenario)
    ensures
        r.wf(),
        r.summary_action == Some(SummaryAction::LoopTheLoop),
        r.duration_ms == 20_000,
{
    let anim_a = Animation::new(approaching_trolley_side_end_transform()).on_lever_state(
        LeverState::Normal,
    ).with_wounded_texture(String::from_str("original-hostage-5-wounded")).node(
        AnimationNode::new(
            2_000,
            Transform2::from_xy(
                STANDARD_HOSTAGES_POS_TRACK_A_X_MPX,
                STANDARD_HOSTAGES_POS_TRACK_A_Y_MPX,
            ),
        ).end_action(NodeAction::ShowWoundedTrackA),
    ).node(AnimationNode::new(250, Transform2::from_xy(570_000, 305_000))).node(
        AnimationNode::new(2_000, Transform2::from_xy(570_000, 305_000)).animation_fn(
            AnimationFn::Loop,
        ),
    ).node(AnimationNode::new(2_000, Transform2::from_xy(900_000, 445_000)));
    let anim_b = standard_animation_track_b(Some("original-hostage-1-wounded"));
    let b = Scenario::builder().text(
        "A trolley is headed towards a group of five people. You can pull the lever to only kill one person, but then the trolley won't do the totally sick loop-da-loop. Do you pull the lever?",
    ).duration_ms(20_000).hostages_track_a_pos(
        STANDARD_HOSTAGES_POS_TRACK_A_X_MPX,
        STANDARD_HOSTAGES_POS_TRACK_A_Y_MPX,
    ).hostages_track_b_pos(
        STANDARD_HOSTAGES_POS_TRACK_B_X_MPX,
        STANDARD_HOSTAGES_POS_TRACK_B_Y_MPX,
    ).tracks_normal_texture("loop-normal").tracks_switched_texture(
        "loop-switched",
    ).lever_normal_texture("original-lever-normal").lever_switched_texture(
        "original-lever-switched",
    ).hostages_track_a_normal_texture("original-hostage-5").hostages_track_b_normal_texture(
        "original-hostage-1",
    ).num_hostages_track_a(5).num_hostages_track_b(1).animation(anim_a).animation(
        anim_b,
    ).summary_action(SummaryAction::LoopTheLoop);
    proof {
        lemma_wf_animations_error_none(b.animations@, 0);
        lemma_two_guard_partition(b.animations@);
    }
    build_valid(b)
}

/// Five philosophy professors.
pub fn scenario_professors() -> (r: Scenario)
    ensures
        r.wf(),
        r.summary_action == Some(SummaryAction::Professors),
        r.duration_ms == 20_000,
{
    let anim_a = standard_animation_track_a(Some("original-hostage-5-wounded"));
    let anim_b = standard_animation_track_b(Some("original-hostage-1-wounded"));
    let b = Scenario::builder().text(
        "A trolley is headed towards five philosophy professors who like to invent trolley problems. You can pull the lever to switch the track, but then the trolley will kill the nice guy who never had a thought of inventing trolley problems.",
    ).duration_ms(20_000).hostages_track_a_pos(
        STANDARD_HOSTAGES_POS_TRACK_A_X_MPX,
        STANDARD_HOSTAGES_POS_TRACK_A_Y_MPX,
    ).hostages_track_b_pos(
        STANDARD_HOSTAGES_POS_TRACK_B_X_MPX,
        STANDARD_HOSTAGES_POS_TRACK_B_Y_MPX,
    ).tracks_normal_texture("original-tracks-normal").tracks_switched_texture(
        "original-tracks-switched",
    ).lever_normal_texture("original-lever-normal").lever_switched_texture(
        "original-lever-switched",
    ).hostages_track_a_normal_texture("original-hostage-5").hostages_track_b_normal_texture(
        "original-hostage-1",
    ).num_hostages_track_a(5).num_hostages_track_b(1).animation(anim_a).animation(
        anim_b,
    ).summary_action(SummaryAction::Professors);
    proof {
        lemma_wf_animations_error_none(b.animations@, 0);
        lemma_two_guard_partition(b.animations@);
    }
    build_valid(b)
}

/// Divert the trolley after it has already run people over.
pub fn scenario_loan_forgiveness() -> (r: Scenario)
    ensures
        r.wf(),
        r.summary_action == Some(SummaryAction::LoanForgiveness),
        r.duration_ms == 20_000,
{
    let anim_a = standard_animation_track_a(Some("original-hostage-5-wounded"));
    let anim_b = standard_animation_track_b(None);
    let b = Scenario::builder().text(
        "The trolley is going to run over ten people. Unless you intervene, it will run over an additional five people. But if you divert the trolley, wouldn't that be unfair to all the people it will have already killed?",
    ).duration_ms(20_000).hostages_track_a_pos(
        STANDARD_HOSTAGES_POS_TRACK_A_X_MPX,
        STANDARD_HOSTAGES_POS_TRACK_A_Y_MPX,
    ).tracks_normal_texture("original-tracks-normal").tracks_switched_texture(
        "original-tracks-switched",
    ).lever_normal_texture("original-lever-normal").lever_switched_texture(
        "original-lever-switched",
    ).hostages_track_a_normal_texture("original-hostage-5").num_hostages_track_a(
        5,
    ).num_hostages_track_b(0).animation(anim_a).animation(anim_b).on_start(
        ScenarioStartAction::LoanForgivenessStart,
    ).on_update(ScenarioUpdateAction::LoanForgivenessUpdate).on_end(
        ScenarioEndAction::LoanForgivenessEnd,
    ).summary_action(SummaryAction::LoanForgiveness);
    proof {
        lemma_wf_animations_error_none(b.animations@, 0);
        lemma_two_guard_partition(b.animations@);
    }
    build_valid(b)
}

/// Five innocent lobsters.
pub fn scenario_lobster() -> (r: Scenario)
    ensures
        r.wf(),
        r.summary_action == Some(SummaryAction::Lobster),
        r.duration_ms == 15_000,
{
    let anim_a = standard_animation_track_a(Some("lobster-hostage-5-wounded"));
    let anim_b = standard_animation_track_b(Some("original-hostage-1-wounded"));
    let b = Scenario::builder().text(
        "A trolley is headed towards a group of five lobsters. Are you really going to let five innocent lobsters die?",
    ).duration_ms(15_000).hostages_track_a_pos(
        STANDARD_HOSTAGES_POS_TRACK_A_X_MPX,
        STANDARD_HOSTAGES_POS_TRACK_A_Y_MPX,
    ).hostages_track_b_pos(
        STANDARD_HOSTAGES_POS_TRACK_B_X_MPX,
        STANDARD_HOSTAGES_POS_TRACK_B_Y_MPX,
    ).tracks_normal_texture("original-tracks-normal").tracks_switched_texture(
        "original-tracks-switched",
    ).lever_normal_texture("original-lever-normal").lever_switched_texture(
        "original-lever-switched",
    ).hostages_track_a_normal_texture("lobster-hostage-5").hostages_track_b_normal_texture(
        "original-hostage-1",
    ).num_hostages_track_a(1).num_hostages_track_b(1).override_hostages_a_scream_sound(
        "blue-lobster",
    ).pause_music_during_hostages_a_scream(5_500).animation(anim_a).animation(
        anim_b,
    ).summary_action(SummaryAction::Lobster);
    proof {
        lemma_wf_animations_error_none(b.animations@, 0);
        lemma_two_guard_partition(b.animations@);
    }
    build_valid(b)
}

/// The duty to return the shopping cart.
pub fn scenario_shopping_cart() -> (r: Scenario)
    ensures
        r.wf(),
        r.summary_action == Some(SummaryAction::ShoppingCart),
        r.duration_ms == 15_000,
{
    let anim_a = standard_animation_track_a(None);
    let anim_b = Animation::new(approaching_trolley_side_end_transform()).on_lever_state(
        LeverState::Pulled,
    ).node(AnimationNode::new(1_000, Transform2::from_xy(400_000, 190_000))).node(
        AnimationNode::new(2_000, Transform2::from_xy(595_000, 240_000)),
    ).node(AnimationNode::new(1_000, Transform2::from_xy(680_000, 180_000)));
    let b = Scenario::builder().text(
        "There is no dire emergency. Do you accept your duty to return the cart even though you gain nothing?",
    ).duration_ms(15_000).tracks_normal_texture(
        "shopping-cart-tracks-normal",
    ).tracks_switched_texture("shopping-cart-tracks-switched").lever_normal_texture(
        "original-lever-normal",
    ).lever_switched_texture("original-lever-switched").num_hostages_track_a(
        0,
    ).num_hostages_track_b(0).override_trolley_texture("shopping-cart").animation(
        anim_a,
    ).animation(anim_b).summary_action(SummaryAction::ShoppingCart);
    proof {
        lemma_wf_animations_error_none(b.animations@, 0);
        lemma_two_guard_partition(b.animations@);
    }
    build_valid(b)
}

/// A born lever-puller with nobody in danger.
pub fn scenario_born_lever_puller() -> (r: Scenario)
    ensures
        r.wf(),
        r.summary_action == Some(SummaryAction::BornLeverPuller),
        r.duration_ms == 15_000,
{
    let anim_a = standard_animation_track_a(None);
    let anim_b = standard_animation_track_b(Some("original-hostage-1-wounded"));
    let b = Scenario::builder().text(
        "If you do nothing, nobody will get hurt. However, you are a born lever-puller. Do you pull the lever?",
    ).duration_ms(15_000).hostages_track_b_pos(
        STANDARD_HOSTAGES_POS_TRACK_B_X_MPX,
        STANDARD_HOSTAGES_POS_TRACK_B_Y_MPX,
    ).tracks_normal_texture("original-tracks-normal").tracks_switched_texture(
        "original-tracks-switched",
    ).lever_normal_texture("born-lever-puller-normal").lever_switched_texture(
        "born-lever-puller-switched",
    ).hostages_track_b_normal_texture("original-hostage-1").num_hostages_track_a(
        0,
    ).num_hostages_track_b(1).animation(anim_a).animation(anim_b).summary_action(
        SummaryAction::BornLeverPuller,
    );
    proof {
        lemma_wf_animations_error_none(b.animations@, 0);
        lemma_two_guard_partition(b.animations@);
    }
    build_valid(b)
}

/// Double it and give it to the next person.
pub fn scenario_double_it() -> (r: Scenario)
    ensures
        r.wf(),
        r.summary_action == Some(SummaryAction::DoubleIt),
        r.duration_ms == 15_000,
{
    let anim_a = Animation::new(approaching_trolley_side_end_transform()).on_lever_state(
        LeverState::Normal,
    ).node(
        AnimationNode::new(3_000, next_person_switch_transform()).end_action(
            NodeAction::SetNextSwitchReached,
        ),
    ).node(AnimationNode::new(2_000, Transform2::from_xy(900_000, 445_000)));
    let anim_b = standard_animation_track_b(Some("original-hostage-1-wounded"));
    let b = Scenario::builder().text(
        "Would you kill one person or double it and give it to the next person?",
    ).duration_ms(15_000).hostages_track_b_pos(
        STANDARD_HOSTAGES_POS_TRACK_B_X_MPX,
        STANDARD_HOSTAGES_POS_TRACK_B_Y_MPX,
    ).tracks_normal_texture("double-it-left-normal").tracks_switched_texture(
        "double-it-left-switched",
    ).lever_normal_texture("original-lever-normal").lever_switched_texture(
        "original-lever-switched",
    ).hostages_track_b_normal_texture("original-hostage-1").num_hostages_track_a(
        0,
    ).num_hostages_track_b(1).animation(anim_a).animation(anim_b).on_start(
        ScenarioStartAction::DoubleItStart,
    ).on_update(ScenarioUpdateAction::DoubleItUpdate).on_end(
        ScenarioEndAction::DoubleItEnd,
    ).summary_action(SummaryAction::DoubleIt);
    proof {
        lemma_wf_animations_error_none(b.animations@, 0);
        lemma_two_guard_partition(b.animations@);
    }
    build_valid(b)
}

/// Thomas the Tank Engine with a single track.
pub fn scenario_thomas_the_tank_engine() -> (r: Scenario)
    ensures
        r.wf(),
        r.summary_action == Some(SummaryAction::ThomasTheTankEngine),
        r.duration_ms == 10_000,
{
    let anim = Animation::new(approaching_trolley_side_end_transform()).with_wounded_texture(
        String::from_str("original-hostage-5-wounded"),
    ).node(
        AnimationNode::new(
            2_000,
            Transform2::from_xy(
                STANDARD_HOSTAGES_POS_TRACK_A_X_MPX,
                STANDARD_HOSTAGES_POS_TRACK_A_Y_MPX,
            ),
        ).end_action(NodeAction::ShowWoundedTrackA),
    ).node(AnimationNode::new(4_000, Transform2::from_xy(900_000, 445_000)));
    let b = Scenario::builder().text(
        "There is only one track. Everyone is in danger and there is nothing you can do to save anyone. Also the trolley is Thomas the Tank Engine.",
    ).duration_ms(10_000).hostages_track_a_pos(
        STANDARD_HOSTAGES_POS_TRACK_A_X_MPX,
        STANDARD_HOSTAGES_POS_TRACK_A_Y_MPX,
    ).tracks_normal_texture("self-one-track").lever_normal_texture(
        "self-standing",
    ).hostages_track_a_normal_texture("original-hostage-5").num_hostages_track_a(
        5,
    ).num_hostages_track_b(0).override_trolley_texture(
        "thomas-the-tank-engine",
    ).override_hostages_a_scream_sound("thomas-theme").pause_music_during_hostages_a_scream(
        4_000,
    ).animation(anim).summary_action(SummaryAction::ThomasTheTankEngine);
    proof {
        lemma_wf_animations_error_none(b.animations@, 0);
        lemma_single_unguarded_partition(b.animations@);
    }
    build_valid(b)
}

/// The viral YouTube prank.
pub fn scenario_youtube_prank() -> (r: Scenario)
    ensures
        r.wf(),
        r.summary_action == Some(SummaryAction::YoutubePrank),
        r.duration_ms == 25_000,
{
    let anim_a = standard_animation_track_a(Some("youtube-prank-youtubers-wounded"));
    let anim_b = standard_animation_track_b(Some("youtube-prank-dummy-wounded"));
    let b = Scenario::builder().text(
        "Five reaction YouTubers tied themselves to the tracks and a trolley is heading straight for them. You notice the person tied to the other track is a dummy. Do you pull the lever to save them, contributing to their viral prank?",
    ).duration_ms(25_000).hostages_track_a_pos(
        STANDARD_HOSTAGES_POS_TRACK_A_X_MPX,
        STANDARD_HOSTAGES_POS_TRACK_A_Y_MPX,
    ).hostages_track_b_pos(
        STANDARD_HOSTAGES_POS_TRACK_B_X_MPX,
        STANDARD_HOSTAGES_POS_TRACK_B_Y_MPX,
    ).tracks_normal_texture("original-tracks-normal").tracks_switched_texture(
        "original-tracks-switched",
    ).lever_normal_texture("original-lever-normal").lever_switched_texture(
        "original-lever-switched",
    ).hostages_track_a_normal_texture("youtube-prank-youtubers").hostages_track_b_normal_texture(
        "youtube-prank-dummy",
    ).num_hostages_track_a(5).num_hostages_track_b(0).animation(anim_a).animation(
        anim_b,
    ).on_start(ScenarioStartAction::YoutubePrankStart).on_end(
        ScenarioEndAction::YoutubePrankEnd,
    ).summary_action(SummaryAction::YoutubePrank);
    proof {
        lemma_wf_animations_error_none(b.animations@, 0);
        lemma_two_guard_partition(b.animations@);
    }
    build_valid(b)
}

/// Jumping in front of the trolley yourself.
pub fn scenario_self() -> (r: Scenario)
    ensures
        r.wf(),
        r.summary_action == Some(SummaryAction::SelfSacrifice),
        r.duration_ms == 10_000,
        r.on_update == Some(ScenarioUpdateAction::SelfUpdate),
        r.animations@.len() == 1,
        r.animations@[0].lever_state_condition is None,
{
    let anim = Animation::new(approaching_trolley_side_end_transform()).node(
        AnimationNode::new(6_000, Transform2::from_xy(900_000, 445_000)),
    );
    let b = Scenario::builder().text(
        "Nobody is in any danger. Do you jump in front of the moving trolley?",
    ).duration_ms(10_000).hostages_track_a_pos(
        STANDARD_HOSTAGES_POS_TRACK_A_X_MPX,
        STANDARD_HOSTAGES_POS_TRACK_A_Y_MPX,
    ).tracks_normal_texture("self-one-track").lever_normal_texture(
        "self-standing",
    ).num_hostages_track_a(0).num_hostages_track_b(0).animation(anim).on_start(
        ScenarioStartAction::SelfStart,
    ).on_update(ScenarioUpdateAction::SelfUpdate).on_end(
        ScenarioEndAction::SelfEnd,
    ).summary_action(SummaryAction::SelfSacrifice);
    proof {
        lemma_wf_animations_error_none(b.animations@, 0);
        lemma_single_unguarded_partition(b.animations@);
    }
    build_valid(b)
}

/// The full catalogue, in play order.
pub fn all_scenarios() -> (r: Vec<Scenario>)
    ensures
        r@.len() == 17,
        forall|i: int| 0 <= i < r@.len() ==> (#[trigger] r@[i]).wf(),
        r@[0].summary_action == Some(SummaryAction::Original),
        r@[0].duration_ms == 20_000,
        r@[0].num_hostages_track_a == 5,
        r@[0].num_hostages_track_b == 1,
{
    let mut scenarios: Vec<Scenario> = Vec::new();
    scenarios.push(scenario_original());
    scenarios.push(scenario_age());
    scenarios.push(scenario_clone());
    scenarios.push(scenario_cliff());
    scenarios.push(scenario_cool_hat());
    scenarios.push(scenario_victim());
    scenarios.push(scenario_darwinism());
    scenarios.push(scenario_loop());
    scenarios.push(scenario_professors());
    scenarios.push(scenario_loan_forgiveness());
    scenarios.push(scenario_lobster());
    scenarios.push(scenario_shopping_cart());
    scenarios.push(scenario_born_lever_puller());
    scenarios.push(scenario_double_it());
    scenarios.push(scenario_thomas_the_tank_engine());
    scenarios.push(scenario_youtube_prank());
    scenarios.push(scenario_self());
    scenarios
}

} // verus!
