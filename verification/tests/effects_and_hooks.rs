//! The wounded effects with their scream sounds, and the per-scenario hook
//! machines.

use trolley_problem::assets::{audio_asset_path, image_asset_path, music_asset_path};
use trolley_problem::effects::{scream_name_for_draw, show_wounded, SCREAM_SOUND_COUNT};
use trolley_problem::hooks::{
    random_switch_delay, switch_delay_for_draw, NextPersonSwitch, OtherHostagesSwap,
    NEXT_SWITCH_DELAY_MIN_MS, NEXT_SWITCH_DELAY_SPAN_MS, OTHER_HOSTAGES_SCREAM_COUNT,
};
use trolley_problem::scenario::scenario_setup;
use trolley_problem::catalog::{scenario_original, scenario_shopping_cart};

#[test]
fn scream_names_wrap_around_the_sound_bank() {
    assert_eq!(scream_name_for_draw(0), "scream-1");
    assert_eq!(scream_name_for_draw(11), "scream-12");
    assert_eq!(scream_name_for_draw(23), "scream-24");
    assert_eq!(scream_name_for_draw(24), "scream-1");
    assert_eq!(scream_name_for_draw(u64::MAX), "scream-16");
}

#[test]
fn no_wounded_texture_means_no_effects() {
    let r = show_wounded(&None, 5, &None, None);
    assert!(r.is_none());
}

#[test]
fn wounded_effects_scream_once_per_hostage() {
    let r = show_wounded(&Some("hostage-wounded".to_string()), 5, &None, None).unwrap();
    assert_eq!(r.wounded_texture, "hostage-wounded");
    assert_eq!(r.scream_sounds.len(), 5);
    for name in &r.scream_sounds {
        let suffix = name.strip_prefix("scream-").unwrap();
        let k: u64 = suffix.parse().unwrap();
        assert!(1 <= k && k <= SCREAM_SOUND_COUNT);
    }
    assert!(r.pause_music_ms.is_none());
    assert!(r.play_squash);
}

#[test]
fn wounded_effects_use_the_override_sound_and_pause() {
    let r = show_wounded(
        &Some("lobster-wounded".to_string()),
        3,
        &Some("blue-lobster".to_string()),
        Some(5_500),
    )
    .unwrap();
    assert_eq!(r.scream_sounds, vec!["blue-lobster"; 3]);
    assert_eq!(r.pause_music_ms, Some(5_500));
    assert!(!r.play_squash);
}

#[test]
fn other_hostages_swap_fires_once_with_ten_screams() {
    let mut swap = OtherHostagesSwap::new(20_000);
    assert!(swap.update(18_000).is_none());
    let screams = swap.update(500).unwrap();
    assert_eq!(screams.len(), OTHER_HOSTAGES_SCREAM_COUNT);
    for name in &screams {
        assert!(name.starts_with("scream-"));
    }
    assert!(swap.update(10_000).is_none());
}

#[test]
fn next_person_switch_toggles_and_then_stops() {
    let mut switch = NextPersonSwitch::new(1_000);
    assert!(switch.update(500, 1_000).is_none());
    assert_eq!(switch.update(500, 1_000), Some(true));
    assert_eq!(switch.update(1_000, 1_000), Some(false));
    switch.set_next_switch_reached();
    assert!(!switch.switch);
    assert!(switch.update(10_000, 1_000).is_none());
}

#[test]
fn random_switch_delays_stay_in_their_bounds() {
    for _ in 0..100 {
        let d = random_switch_delay();
        assert!(NEXT_SWITCH_DELAY_MIN_MS <= d);
        assert!(d < NEXT_SWITCH_DELAY_MIN_MS + NEXT_SWITCH_DELAY_SPAN_MS);
    }
}

#[test]
fn spawn_plan_carries_the_scenario_configuration() {
    let plan = scenario_setup(&scenario_original());
    assert_eq!(plan.tracks_texture, "original-tracks-normal");
    assert_eq!(plan.lever_texture, "original-lever-normal");
    assert_eq!(plan.trolley_texture, "original-trolley-front");
    assert_eq!(plan.timer_text, "0:20");
    let hostages_a = plan.hostages_a.unwrap();
    assert_eq!(hostages_a.texture, "original-hostage-5");
    assert_eq!(hostages_a.x, 530_000 - 400_000);
    assert_eq!(hostages_a.y, (600_000 - 325_000) - 300_000);
    assert_eq!(hostages_a.z, -10_000);
    let hostages_b = plan.hostages_b.unwrap();
    assert_eq!(hostages_b.texture, "original-hostage-1");
}

#[test]
fn spawn_plan_uses_the_trolley_override() {
    let plan = scenario_setup(&scenario_shopping_cart());
    assert_eq!(plan.trolley_texture, "shopping-cart");
    assert!(plan.hostages_a.is_none());
    assert!(plan.hostages_b.is_none());
    assert_eq!(plan.timer_text, "0:15");
}

#[test]
fn asset_paths_follow_the_naming_convention() {
    assert_eq!(image_asset_path("original-trolley-front"), "assets/images/original-trolley-front.png");
    assert_eq!(audio_asset_path("switch"), "assets/sounds/switch.mp3");
    assert_eq!(music_asset_path("trolley-main"), "assets/music/trolley-main.mp3");
}

#[test]
fn switch_delays_are_a_fixed_function_of_the_draw() {
    assert_eq!(switch_delay_for_draw(0), NEXT_SWITCH_DELAY_MIN_MS);
    assert_eq!(switch_delay_for_draw(1), NEXT_SWITCH_DELAY_MIN_MS + 1);
    assert_eq!(
        switch_delay_for_draw(NEXT_SWITCH_DELAY_SPAN_MS - 1),
        NEXT_SWITCH_DELAY_MIN_MS + NEXT_SWITCH_DELAY_SPAN_MS - 1
    );
    assert_eq!(switch_delay_for_draw(NEXT_SWITCH_DELAY_SPAN_MS), NEXT_SWITCH_DELAY_MIN_MS);
    assert_eq!(
        switch_delay_for_draw(u64::MAX),
        NEXT_SWITCH_DELAY_MIN_MS + u64::MAX % NEXT_SWITCH_DELAY_SPAN_MS
    );
}
