//! Trolley problem scenario configuration: the per-scenario record, its
//! builder, the validating factory, and the spawn plan computed when a
//! scenario is entered.

use vstd::prelude::*;
use vstd::string::StringExecFns;
use crate::animation::{match_count, spec_match_count, Animation};
use crate::fixed::{MAX_COORD, MAX_TIME_MS};
use crate::states::LeverState;
use crate::summary::SummaryAction;
use crate::text::{format_timer_text, spec_timer_text};
use crate::transform::Transform2;
use crate::util::{horizon_distance_transform, spec_horizon_distance_transform, spec_normalize_x,
    spec_normalize_y, normalize_translation_to_canvas_with_z};

verus! {

/// An action to run when a scenario begins.
#[derive(Clone, Copy, Debug, PartialEq, Eq, Structural)]
pub enum ScenarioStartAction {
    /// Spawn the cliff backdrop.
    CliffStart,
    /// Spawn the extra hostages already run over, and time their wounding.
    LoanForgivenessStart,
    /// Spawn the right half of the doubled track with the next person.
    DoubleItStart,
    /// Spawn the camera tripod.
    YoutubePrankStart,
    /// Track whether the player jumps onto the track.
    SelfStart,
}

/// An action to run on every tick while a scenario is active.
#[derive(Clone, Copy, Debug, PartialEq, Eq, Structural)]
pub enum ScenarioUpdateAction {
    /// Wound the extra hostages when their timer runs out.
    LoanForgivenessUpdate,
    /// Toggle the next person's switch at random intervals.
    DoubleItUpdate,
    /// Let a click make the player jump in front of the trolley.
    SelfUpdate,
}

/// An action to run when a scenario ends.
#[derive(Clone, Copy, Debug, PartialEq, Eq, Structural)]
pub enum ScenarioEndAction {
    /// Despawn the cliff backdrop.
    CliffEnd,
    /// Record the hat so the end screen can show it.
    CoolHatEnd,
    /// Despawn the extra hostages and their timer.
    LoanForgivenessEnd,
    /// Despawn the doubled track and the next person.
    DoubleItEnd,
    /// Despawn the tripod and surrender the hat.
    YoutubePrankEnd,
    /// Forget whether the player jumped.
    SelfEnd,
}

/// Why a scenario failed validation.
#[derive(Clone, Copy, Debug, PartialEq, Eq, Structural)]
pub enum ScenarioError {
    /// The scenario text was never set.
    MissingText,
    /// The countdown duration was never set.
    MissingDuration,
    /// The countdown duration is zero or too long for the timers.
    InvalidDuration,
    /// The normal track texture was never set.
    MissingTracksTexture,
    /// The normal lever texture was never set.
    MissingLeverTexture,
    /// One of the hostage counts was never set.
    MissingHostageCount,
    /// A hostage position lies outside the coordinate bound.
    HostagePositionOutOfRange,
    /// The scenario has no animations at all.
    NoAnimations,
    /// An animation has no nodes.
    EmptyAnimation,
    /// An animation node's duration is zero or too long for the timers.
    InvalidNodeDuration,
    /// A pose in an animation lies outside the coordinate bound.
    TransformOutOfRange,
    /// No animation's guard admits this lever state.
    NoAnimationForLever(LeverState),
    /// More than one animation's guard admits this lever state.
    MultipleAnimationsForLever(LeverState),
}

/// A trolley problem scenario.  Construct this through `Scenario::builder`,
/// whose `build` validates the configuration.
#[derive(Clone, Debug)]
pub struct Scenario {
    /// The scenario text.
    pub text: String,
    /// The countdown duration in milliseconds.
    pub duration_ms: u64,
    /// The position of hostages on track A, in thousandths of a pixel.
    pub hostages_track_a_pos: Option<(i64, i64)>,
    /// The position of hostages on track B, in thousandths of a pixel.
    pub hostages_track_b_pos: Option<(i64, i64)>,
    /// The name of the normal track texture.
    pub tracks_normal_texture: String,
    /// The name of the switched track texture.
    pub tracks_switched_texture: Option<String>,
    /// The name of the normal lever/player texture.
    pub lever_normal_texture: String,
    /// The name of the switched lever/player texture.
    pub lever_switched_texture: Option<String>,
    /// The name of the track A hostages texture.
    pub hostages_track_a_normal_texture: Option<String>,
    /// The name of the track B hostages texture.
    pub hostages_track_b_normal_texture: Option<String>,
    /// The number of hostages on track A.
    pub num_hostages_track_a: usize,
    /// The number of hostages on track B.
    pub num_hostages_track_b: usize,
    /// The overridden trolley texture.
    pub trolley_texture_override: Option<String>,
    /// The overridden track A hostages scream sound.
    pub hostages_a_scream_sound_override: Option<String>,
    /// The overridden track B hostages scream sound.
    pub hostages_b_scream_sound_override: Option<String>,
    /// How long to pause the music while the track A hostages scream.
    pub pause_music_during_hostages_a_scream: Option<u64>,
    /// How long to pause the music while the track B hostages scream.
    pub pause_music_during_hostages_b_scream: Option<u64>,
    /// The ordered collection of scenario animations.
    pub animations: Vec<Animation>,
    /// An optional action to run when the scenario begins.
    pub on_start: Option<ScenarioStartAction>,
    /// An optional action to run while the scenario is running.
    pub on_update: Option<ScenarioUpdateAction>,
    /// An optional action to run when the scenario ends.
    pub on_end: Option<ScenarioEndAction>,
    /// The reducer that accumulates this scenario's outcome.
    pub summary_action: Option<SummaryAction>,
}

impl Scenario {
    /// A scenario is well formed when its countdown duration is usable, its
    /// hostage positions are bounded, it has animations, every animation is
    /// well formed, and for each lever state exactly one animation's guard
    /// admits it.
    pub open spec fn wf(self) -> bool {
        &&& 0 < self.duration_ms <= MAX_TIME_MS
        &&& (self.hostages_track_a_pos matches Some(p) ==> -MAX_COORD <= p.0 <= MAX_COORD
            && -MAX_COORD <= p.1 <= MAX_COORD)
        &&& (self.hostages_track_b_pos matches Some(p) ==> -MAX_COORD <= p.0 <= MAX_COORD
            && -MAX_COORD <= p.1 <= MAX_COORD)
        &&& self.animations@.len() > 0
        &&& forall|i: int| 0 <= i < self.animations@.len() ==> (#[trigger] self.animations@[i]).wf()
        &&& spec_match_count(self.animations@, LeverState::Normal) == 1
        &&& spec_match_count(self.animations@, LeverState::Pulled) == 1
    }

    /// Constructs a builder for a scenario.
    pub fn builder() -> (r: ScenarioBuilder)
        ensures
            r.text is None,
            r.duration_ms is None,
            r.hostages_track_a_pos is None,
            r.hostages_track_b_pos is None,
            r.tracks_normal_texture is None,
            r.tracks_switched_texture is None,
            r.lever_normal_texture is None,
            r.lever_switched_texture is None,
            r.hostages_track_a_normal_texture is None,
            r.hostages_track_b_normal_texture is None,
            r.num_hostages_track_a is None,
            r.num_hostages_track_b is None,
            r.trolley_texture_override is None,
            r.hostages_a_scream_sound_override is None,
            r.hostages_b_scream_sound_override is None,
            r.pause_music_during_hostages_a_scream is None,
            r.pause_music_during_hostages_b_scream is None,
            r.animations@ == Seq::<Animation>::empty(),
            r.on_start is None,
            r.on_update is None,
            r.on_end is None,
            r.summary_action is None,
    {
        ScenarioBuilder {
            text: None,
            duration_ms: None,
            hostages_track_a_pos: None,
            hostages_track_b_pos: None,
            tracks_normal_texture: None,
            tracks_switched_texture: None,
            lever_normal_texture: None,
            lever_switched_texture: None,
            hostages_track_a_normal_texture: None,
            hostages_track_b_normal_texture: None,
            num_hostages_track_a: None,
            num_hostages_track_b: None,
            trolley_texture_override: None,
            hostages_a_scream_sound_override: None,
            hostages_b_scream_sound_override: None,
            pause_music_during_hostages_a_scream: None,
            pause_music_during_hostages_b_scream: None,
            animations: Vec::new(),
            on_start: None,
            on_update: None,
            on_end: None,
            summary_action: None,
        }
    }
}

/// A builder for a scenario.  Every configured value is kept as given; the
/// final `build` validates the whole configuration at once and rejects a
/// missing or unusable combination instead of failing later.
#[derive(Debug)]
pub struct ScenarioBuilder {
    /// The scenario text, once set.
    pub text: Option<String>,
    /// The countdown duration in milliseconds, once set.
    pub duration_ms: Option<u64>,
    /// The position of hostages on track A.
    pub hostages_track_a_pos: Option<(i64, i64)>,
    /// The position of hostages on track B.
    pub hostages_track_b_pos: Option<(i64, i64)>,
    /// The name of the normal track texture, once set.
    pub tracks_normal_texture: Option<String>,
    /// The name of the switched track texture.
    pub tracks_switched_texture: Option<String>,
    /// The name of the normal lever/player texture, once set.
    pub lever_normal_texture: Option<String>,
    /// The name of the switched lever/player texture.
    pub lever_switched_texture: Option<String>,
    /// The name of the track A hostages texture.
    pub hostages_track_a_normal_texture: Option<String>,
    /// The name of the track B hostages texture.
    pub hostages_track_b_normal_texture: Option<String>,
    /// The number of hostages on track A, once set.
    pub num_hostages_track_a: Option<usize>,
    /// The number of hostages on track B, once set.
    pub num_hostages_track_b: Option<usize>,
    /// The overridden trolley texture.
    pub trolley_texture_override: Option<String>,
    /// The overridden track A hostages scream sound.
    pub hostages_a_scream_sound_override: Option<String>,
    /// The overridden track B hostages scream sound.
    pub hostages_b_scream_sound_override: Option<String>,
    /// How long to pause the music while the track A hostages scream.
    pub pause_music_during_hostages_a_scream: Option<u64>,
    /// How long to pause the music while the track B hostages scream.
    pub pause_music_during_hostages_b_scream: Option<u64>,
    /// The ordered collection of scenario animations.
    pub animations: Vec<Animation>,
    /// An optional action to run when the scenario begins.
    pub on_start: Option<ScenarioStartAction>,
    /// An optional action to run while the scenario is running.
    pub on_update: Option<ScenarioUpdateAction>,
    /// An optional action to run when the scenario ends.
    pub on_end: Option<ScenarioEndAction>,
    /// The reducer that accumulates this scenario's outcome.
    pub summary_action: Option<SummaryAction>,
}

impl ScenarioBuilder {
    /// Sets the scenario text.
    pub fn text(self, text: &str) -> (r: ScenarioBuilder)
        ensures
            r == (ScenarioBuilder { text: r.text, ..self }),
            r.text matches Some(t) && t@ == text@,
    {
        ScenarioBuilder { text: Some(String::from_str(text)), ..self }
    }

    /// Sets the countdown duration, in milliseconds.
    pub fn duration_ms(self, duration_ms: u64) -> (r: ScenarioBuilder)
        ensures
            r == (ScenarioBuilder { duration_ms: Some(duration_ms), ..self }),
    {
        ScenarioBuilder { duration_ms: Some(duration_ms), ..self }
    }

    /// Sets the position of hostages on track A.
    pub fn hostages_track_a_pos(self, x: i64, y: i64) -> (r: ScenarioBuilder)
        ensures
            r == (ScenarioBuilder { hostages_track_a_pos: Some((x, y)), ..self }),
    {
        ScenarioBuilder { hostages_track_a_pos: Some((x, y)), ..self }
    }

    /// Sets the position of hostages on track B.
    pub fn hostages_track_b_pos(self, x: i64, y: i64) -> (r: ScenarioBuilder)
        ensures
            r == (ScenarioBuilder { hostages_track_b_pos: Some((x, y)), ..self }),
    {
        ScenarioBuilder { hostages_track_b_pos: Some((x, y)), ..self }
    }

    /// Sets the normal track texture.
    pub fn tracks_normal_texture(self, name: &str) -> (r: ScenarioBuilder)
        ensures
            r == (ScenarioBuilder { tracks_normal_texture: r.tracks_normal_texture, ..self }),
            r.tracks_normal_texture matches Some(t) && t@ == name@,
    {
        ScenarioBuilder { tracks_normal_texture: Some(String::from_str(name)), ..self }
    }

    /// Sets the switched track texture.
    pub fn tracks_switched_texture(self, name: &str) -> (r: ScenarioBuilder)
        ensures
            r == (ScenarioBuilder { tracks_switched_texture: r.tracks_switched_texture, ..self }),
            r.tracks_switched_texture matches Some(t) && t@ == name@,
    {
        ScenarioBuilder { tracks_switched_texture: Some(String::from_str(name)), ..self }
    }

    /// Sets the normal lever/player texture.
    pub fn lever_normal_texture(self, name: &str) -> (r: ScenarioBuilder)
        ensures
            r == (ScenarioBuilder { lever_normal_texture: r.lever_normal_texture, ..self }),
            r.lever_normal_texture matches Some(t) && t@ == name@,
    {
        ScenarioBuilder { lever_normal_texture: Some(String::from_str(name)), ..self }
    }

    /// Sets the switched lever/player texture.
    pub fn lever_switched_texture(self, name: &str) -> (r: ScenarioBuilder)
        ensures
            r == (ScenarioBuilder { lever_switched_texture: r.lever_switched_texture, ..self }),
            r.lever_switched_texture matches Some(t) && t@ == name@,
    {
        ScenarioBuilder { lever_switched_texture: Some(String::from_str(name)), ..self }
    }

    /// Sets the track A hostages texture.
    pub fn hostages_track_a_normal_texture(self, name: &str) -> (r: ScenarioBuilder)
        ensures
            r == (ScenarioBuilder {
                hostages_track_a_normal_texture: r.hostages_track_a_normal_texture,
                ..self
            }),
            r.hostages_track_a_normal_texture matches Some(t) && t@ == name@,
    {
        ScenarioBuilder { hostages_track_a_normal_texture: Some(String::from_str(name)), ..self }
    }

    /// Sets the track B hostages texture.
    pub fn hostages_track_b_normal_texture(self, name: &str) -> (r: ScenarioBuilder)
        ensures
            r == (ScenarioBuilder {
                hostages_track_b_normal_texture: r.hostages_track_b_normal_texture,
                ..self
            }),
            r.hostages_track_b_normal_texture matches Some(t) && t@ == name@,
    {
        ScenarioBuilder { hostages_track_b_normal_texture: Some(String::from_str(name)), ..self }
    }

    /// Sets the number of hostages on track A.
    pub fn num_hostages_track_a(self, n: usize) -> (r: ScenarioBuilder)
        ensures
            r == (ScenarioBuilder { num_hostages_track_a: Some(n), ..self }),
    {
        ScenarioBuilder { num_hostages_track_a: Some(n), ..self }
    }

    /// Sets the number of hostages on track B.
    pub fn num_hostages_track_b(self, n: usize) -> (r: ScenarioBuilder)
        ensures
            r == (ScenarioBuilder { num_hostages_track_b: Some(n), ..self }),
    {
        ScenarioBuilder { num_hostages_track_b: Some(n), ..self }
    }

    /// Overrides the trolley texture.
    pub fn override_trolley_texture(self, name: &str) -> (r: ScenarioBuilder)
        ensures
            r == (ScenarioBuilder { trolley_texture_override: r.trolley_texture_override, ..self }),
            r.trolley_texture_override matches Some(t) && t@ == name@,
    {
        ScenarioBuilder { trolley_texture_override: Some(String::from_str(name)), ..self }
    }

    /// Overrides the track A hostages scream sound.
    pub fn override_hostages_a_scream_sound(self, name: &str) -> (r: ScenarioBuilder)
        ensures
            r == (ScenarioBuilder {
                hostages_a_scream_sound_override: r.hostages_a_scream_sound_override,
                ..self
            }),
            r.hostages_a_scream_sound_override matches Some(t) && t@ == name@,
    {
        ScenarioBuilder { hostages_a_scream_sound_override: Some(String::from_str(name)), ..self }
    }

    /// Overrides the track B hostages scream sound.
    pub fn override_hostages_b_scream_sound(self, name: &str) -> (r: ScenarioBuilder)
        ensures
            r == (ScenarioBuilder {
                hostages_b_scream_sound_override: r.hostages_b_scream_sound_override,
                ..self
            }),
            r.hostages_b_scream_sound_override matches Some(t) && t@ == name@,
    {
        ScenarioBuilder { hostages_b_scream_sound_override: Some(String::from_str(name)), ..self }
    }

    /// Pauses the music for the given time while the track A hostages
    /// scream.
    pub fn pause_music_during_hostages_a_scream(self, ms: u64) -> (r: ScenarioBuilder)
        ensures
            r == (ScenarioBuilder { pause_music_during_hostages_a_scream: Some(ms), ..self }),
    {
        ScenarioBuilder { pause_music_during_hostages_a_scream: Some(ms), ..self }
    }

    /// Pauses the music for the given time while the track B hostages
    /// scream.
    pub fn pause_music_during_hostages_b_scream(self, ms: u64) -> (r: ScenarioBuilder)
        ensures
            r == (ScenarioBuilder { pause_music_during_hostages_b_scream: Some(ms), ..self }),
    {
        ScenarioBuilder { pause_music_during_hostages_b_scream: Some(ms), ..self }
    }

    /// Adds an animation to the scenario.
    pub fn animation(self, animation: Animation) -> (r: ScenarioBuilder)
        ensures
            r.animations@ == self.animations@.push(animation),
            r == (ScenarioBuilder { animations: r.animations, ..self }),
    {
        let mut animations = self.animations;
        animations.push(animation);
        ScenarioBuilder { animations, ..self }
    }

    /// Configures an action to run when the scenario begins.
    pub fn on_start(self, action: ScenarioStartAction) -> (r: ScenarioBuilder)
        ensures
            r == (ScenarioBuilder { on_start: Some(action), ..self }),
    {
        ScenarioBuilder { on_start: Some(action), ..self }
    }

    /// Configures an action to run while the scenario is running.
    pub fn on_update(self, action: ScenarioUpdateAction) -> (r: ScenarioBuilder)
        ensures
            r == (ScenarioBuilder { on_update: Some(action), ..self }),
    {
        ScenarioBuilder { on_update: Some(action), ..self }
    }

    /// Configures an action to run when the scenario ends.
    pub fn on_end(self, action: ScenarioEndAction) -> (r: ScenarioBuilder)
        ensures
            r == (ScenarioBuilder { on_end: Some(action), ..self }),
    {
        ScenarioBuilder { on_end: Some(action), ..self }
    }

    /// Configures the reducer that accumulates this scenario's outcome.
    pub fn summary_action(self, action: SummaryAction) -> (r: ScenarioBuilder)
        ensures
            r == (ScenarioBuilder { summary_action: Some(action), ..self }),
    {
        ScenarioBuilder { summary_action: Some(action), ..self }
    }
}

/// The first problem with one animation, if any: an animation needs at
/// least one node, usable node durations, and bounded poses.
pub open spec fn spec_animation_error(a: Animation) -> Option<ScenarioError> {
    if a.nodes@.len() == 0 {
        Some(ScenarioError::EmptyAnimation)
    } else if exists|j: int|
        0 <= j < a.nodes@.len() && !(0 < (#[trigger] a.nodes@[j]).duration_ms <= MAX_TIME_MS) {
        Some(ScenarioError::InvalidNodeDuration)
    } else if !crate::animation::pose_bounded(a.start_transform) || exists|j: int|
        0 <= j < a.nodes@.len() && !crate::animation::pose_bounded(
            (#[trigger] a.nodes@[j]).transform,
        ) {
        Some(ScenarioError::TransformOutOfRange)
    } else {
        None
    }
}

/// The first problem with any animation from `start` on, in order.
pub open spec fn spec_animations_error(animations: Seq<Animation>, start: int) -> Option<
    ScenarioError,
>
    decreases animations.len() - start,
{
    if start < 0 || start >= animations.len() {
        None
    } else {
        match spec_animation_error(animations[start]) {
            Some(e) => Some(e),
            None => spec_animations_error(animations, start + 1),
        }
    }
}

/// The problem with the guards for one lever state, if any: exactly one
/// animation must admit each lever state.
pub open spec fn spec_guard_error(animations: Seq<Animation>, lever: LeverState) -> Option<
    ScenarioError,
> {
    let c = spec_match_count(animations, lever);
    if c == 0 {
        Some(ScenarioError::NoAnimationForLever(lever))
    } else if c > 1 {
        Some(ScenarioError::MultipleAnimationsForLever(lever))
    } else {
        None
    }
}

/// An animation found free of problems is well formed.
proof fn lemma_animation_error_none_wf(a: Animation)
    requires
        spec_animation_error(a) is None,
    ensures
        a.wf(),
{
    assert forall|i: int| 0 <= i < a.nodes@.len() implies (#[trigger] a.nodes@[i]).wf() by {
        assert(!(0 <= i < a.nodes@.len() && !(0 < a.nodes@[i].duration_ms <= MAX_TIME_MS)));
        assert(!(0 <= i < a.nodes@.len() && !crate::animation::pose_bounded(
            a.nodes@[i].transform,
        )));
    }
}

/// When the scan of the animations finds no problem, none has one.
proof fn lemma_animations_error_none(animations: Seq<Animation>, start: int)
    requires
        0 <= start,
        spec_animations_error(animations, start) is None,
    ensures
        forall|i: int| start <= i < animations.len() ==> spec_animation_error(
            #[trigger] animations[i],
        ) is None,
    decreases animations.len() - start,
{
    if 0 <= start < animations.len() {
        assert(spec_animation_error(animations[start]) is None);
        lemma_animations_error_none(animations, start + 1);
    }
}

/// Finds the first problem with one animation, if any.
fn animation_error(a: &Animation) -> (r: Option<ScenarioError>)
    ensures
        r == spec_animation_error(*a),
{
    let n = a.nodes.len();
    if n == 0 {
        return Some(ScenarioError::EmptyAnimation);
    }
    let mut i: usize = 0;
    while i < n
        invariant
            i <= n,
            n == a.nodes@.len(),
            forall|j: int| 0 <= j < i ==> 0 < (#[trigger] a.nodes@[j]).duration_ms <= MAX_TIME_MS,
        decreases n - i,
    {
        let d = a.nodes[i].duration_ms;
        if d == 0 || d > MAX_TIME_MS {
            return Some(ScenarioError::InvalidNodeDuration);
        }
        i = i + 1;
    }
    if !crate::animation::is_pose_bounded(&a.start_transform) {
        return Some(ScenarioError::TransformOutOfRange);
    }
    let mut i: usize = 0;
    while i < n
        invariant
            i <= n,
            n == a.nodes@.len(),
            forall|j: int| 0 <= j < n ==> 0 < (#[trigger] a.nodes@[j]).duration_ms <= MAX_TIME_MS,
            crate::animation::pose_bounded(a.start_transform),
            forall|j: int| 0 <= j < i ==> crate::animation::pose_bounded(
                (#[trigger] a.nodes@[j]).transform,
            ),
        decreases n - i,
    {
        if !crate::animation::is_pose_bounded(&a.nodes[i].transform) {
            return Some(ScenarioError::TransformOutOfRange);
        }
        i = i + 1;
    }
    None
}

/// Finds the first problem with any animation, in order.
fn animations_error(animations: &Vec<Animation>) -> (r: Option<ScenarioError>)
    ensures
        r == spec_animations_error(animations@, 0),
{
    let n = animations.len();
    let mut i: usize = 0;
    while i < n
        invariant
            i <= n,
            n == animations@.len(),
            spec_animations_error(animations@, 0) == spec_animations_error(animations@, i as int),
        decreases n - i,
    {
        let e = animation_error(&animations[i]);
        if let Some(err) = e {
            return Some(err);
        }
        i = i + 1;
    }
    None
}

/// Finds the problem with the guards for one lever state, if any.
fn guard_error(animations: &Vec<Animation>, lever: LeverState) -> (r: Option<ScenarioError>)
    requires
        animations@.len() <= u64::MAX,
    ensures
        r == spec_guard_error(animations@, lever),
{
    let c = match_count(animations, lever);
    if c == 0 {
        Some(ScenarioError::NoAnimationForLever(lever))
    } else if c > 1 {
        Some(ScenarioError::MultipleAnimationsForLever(lever))
    } else {
        None
    }
}

impl ScenarioBuilder {
    /// The first problem with this configuration, if any, in the order the
    /// validating factory reports them.
    pub open spec fn spec_first_error(self) -> Option<ScenarioError> {
        if self.text is None {
            Some(ScenarioError::MissingText)
        } else if self.duration_ms is None {
            Some(ScenarioError::MissingDuration)
        } else if !(0 < self.duration_ms->0 <= MAX_TIME_MS) {
            Some(ScenarioError::InvalidDuration)
        } else if self.tracks_normal_texture is None {
            Some(ScenarioError::MissingTracksTexture)
        } else if self.lever_normal_texture is None {
            Some(ScenarioError::MissingLeverTexture)
        } else if self.num_hostages_track_a is None || self.num_hostages_track_b is None {
            Some(ScenarioError::MissingHostageCount)
        } else if !(self.hostages_track_a_pos matches Some(p) ==> -MAX_COORD <= p.0 <= MAX_COORD
            && -MAX_COORD <= p.1 <= MAX_COORD) || !(self.hostages_track_b_pos matches Some(p)
            ==> -MAX_COORD <= p.0 <= MAX_COORD && -MAX_COORD <= p.1 <= MAX_COORD) {
            Some(ScenarioError::HostagePositionOutOfRange)
        } else if self.animations@.len() == 0 {
            Some(ScenarioError::NoAnimations)
        } else if spec_animations_error(self.animations@, 0) is Some {
            spec_animations_error(self.animations@, 0)
        } else if spec_guard_error(self.animations@, LeverState::Normal) is Some {
            spec_guard_error(self.animations@, LeverState::Normal)
        } else if spec_guard_error(self.animations@, LeverState::Pulled) is Some {
            spec_guard_error(self.animations@, LeverState::Pulled)
        } else {
            None
        }
    }

    /// Validates the configuration and produces the scenario.  Succeeds
    /// exactly when no field is missing or unusable; the first problem found
    /// is reported otherwise, and the built scenario carries every
    /// configured value unchanged.
    pub fn build(self) -> (r: Result<Scenario, ScenarioError>)
        ensures
            self.spec_first_error() matches Some(e) ==> r == Result::<Scenario, ScenarioError>::Err(
                e,
            ),
            self.spec_first_error() is None ==> {
                &&& r is Ok
                &&& r->Ok_0.wf()
                &&& r->Ok_0.text == self.text->0
                &&& r->Ok_0.duration_ms == self.duration_ms->0
                &&& r->Ok_0.hostages_track_a_pos == self.hostages_track_a_pos
                &&& r->Ok_0.hostages_track_b_pos == self.hostages_track_b_pos
                &&& r->Ok_0.tracks_normal_texture == self.tracks_normal_texture->0
                &&& r->Ok_0.tracks_switched_texture == self.tracks_switched_texture
                &&& r->Ok_0.lever_normal_texture == self.lever_normal_texture->0
                &&& r->Ok_0.lever_switched_texture == self.lever_switched_texture
                &&& r->Ok_0.hostages_track_a_normal_texture
                    == self.hostages_track_a_normal_texture
                &&& r->Ok_0.hostages_track_b_normal_texture
                    == self.hostages_track_b_normal_texture
                &&& r->Ok_0.num_hostages_track_a == self.num_hostages_track_a->0
                &&& r->Ok_0.num_hostages_track_b == self.num_hostages_track_b->0
                &&& r->Ok_0.trolley_texture_override == self.trolley_texture_override
                &&& r->Ok_0.hostages_a_scream_sound_override
                    == self.hostages_a_scream_sound_override
                &&& r->Ok_0.hostages_b_scream_sound_override
                    == self.hostages_b_scream_sound_override
                &&& r->Ok_0.pause_music_during_hostages_a_scream
                    == self.pause_music_during_hostages_a_scream
                &&& r->Ok_0.pause_music_during_hostages_b_scream
                    == self.pause_music_during_hostages_b_scream
                &&& r->Ok_0.animations@ == self.animations@
                &&& r->Ok_0.on_start == self.on_start
                &&& r->Ok_0.on_update == self.on_update
                &&& r->Ok_0.on_end == self.on_end
                &&& r->Ok_0.summary_action == self.summary_action
            },
    {
        let text = match self.text {
            Some(t) => t,
            None => {
                return Err(ScenarioError::MissingText);
            },
        };
        let duration_ms = match self.duration_ms {
            Some(d) => d,
            None => {
                return Err(ScenarioError::MissingDuration);
            },
        };
        if duration_ms == 0 || duration_ms > MAX_TIME_MS {
            return Err(ScenarioError::InvalidDuration);
        }
        let tracks_normal_texture = match self.tracks_normal_texture {
            Some(t) => t,
            None => {
                return Err(ScenarioError::MissingTracksTexture);
            },
        };
        let lever_normal_texture = match self.lever_normal_texture {
            Some(t) => t,
            None => {
                return Err(ScenarioError::MissingLeverTexture);
            },
        };
        let (num_hostages_track_a, num_hostages_track_b) = match (
            self.num_hostages_track_a,
            self.num_hostages_track_b,
        ) {
            (Some(a), Some(b)) => (a, b),
            _ => {
                return Err(ScenarioError::MissingHostageCount);
            },
        };
        if let Some(p) = self.hostages_track_a_pos {
            if p.0 < -MAX_COORD || p.0 > MAX_COORD || p.1 < -MAX_COORD || p.1 > MAX_COORD {
                return Err(ScenarioError::HostagePositionOutOfRange);
            }
        }
        if let Some(p) = self.hostages_track_b_pos {
            if p.0 < -MAX_COORD || p.0 > MAX_COORD || p.1 < -MAX_COORD || p.1 > MAX_COORD {
                return Err(ScenarioError::HostagePositionOutOfRange);
            }
        }
        if self.animations.len() == 0 {
            return Err(ScenarioError::NoAnimations);
        }
        if let Some(e) = animations_error(&self.animations) {
            return Err(e);
        }
        if let Some(e) = guard_error(&self.animations, LeverState::Normal) {
            return Err(e);
        }
        if let Some(e) = guard_error(&self.animations, LeverState::Pulled) {
            return Err(e);
        }
        proof {
            crate::animation::lemma_match_count_from_bounds(self.animations@, LeverState::Normal, 0);
            crate::animation::lemma_match_count_from_bounds(self.animations@, LeverState::Pulled, 0);
            lemma_animations_error_none(self.animations@, 0);
            assert forall|i: int| 0 <= i < self.animations@.len() implies (
            #[trigger] self.animations@[i]).wf() by {
                lemma_animation_error_none_wf(self.animations@[i]);
            }
        }
        Ok(Scenario {
            text,
            duration_ms,
            hostages_track_a_pos: self.hostages_track_a_pos,
            hostages_track_b_pos: self.hostages_track_b_pos,
            tracks_normal_texture,
            tracks_switched_texture: self.tracks_switched_texture,
            lever_normal_texture,
            lever_switched_texture: self.lever_switched_texture,
            hostages_track_a_normal_texture: self.hostages_track_a_normal_texture,
            hostages_track_b_normal_texture: self.hostages_track_b_normal_texture,
            num_hostages_track_a,
            num_hostages_track_b,
            trolley_texture_override: self.trolley_texture_override,
            hostages_a_scream_sound_override: self.hostages_a_scream_sound_override,
            hostages_b_scream_sound_override: self.hostages_b_scream_sound_override,
            pause_music_during_hostages_a_scream: self.pause_music_during_hostages_a_scream,
            pause_music_during_hostages_b_scream: self.pause_music_during_hostages_b_scream,
            animations: self.animations,
            on_start: self.on_start,
            on_update: self.on_update,
            on_end: self.on_end,
            summary_action: self.summary_action,
        })
    }
}

/// A well-formed animation scans clean.
pub proof fn lemma_wf_animation_error_none(a: Animation)
    requires
        a.wf(),
    ensures
        spec_animation_error(a) is None,
{
    assert forall|j: int| 0 <= j < a.nodes@.len() implies 0 < (
    #[trigger] a.nodes@[j]).duration_ms <= MAX_TIME_MS && crate::animation::pose_bounded(
        a.nodes@[j].transform,
    ) by {
        assert(a.nodes@[j].wf());
    }
}

/// An animation that fails the scan is not well formed.
proof fn lemma_animation_error_some_not_wf(a: Animation)
    requires
        spec_animation_error(a) is Some,
    ensures
        !a.wf(),
{
    if a.nodes@.len() == 0 {
    } else if exists|j: int|
        0 <= j < a.nodes@.len() && !(0 < (#[trigger] a.nodes@[j]).duration_ms <= MAX_TIME_MS) {
        let j = choose|j: int|
            0 <= j < a.nodes@.len() && !(0 < (#[trigger] a.nodes@[j]).duration_ms <= MAX_TIME_MS);
        assert(!a.nodes@[j].wf());
    } else if !crate::animation::pose_bounded(a.start_transform) {
    } else {
        let j = choose|j: int|
            0 <= j < a.nodes@.len() && !crate::animation::pose_bounded(
                (#[trigger] a.nodes@[j]).transform,
            );
        assert(!a.nodes@[j].wf());
    }
}

/// A list of well-formed animations scans clean.
pub proof fn lemma_wf_animations_error_none(animations: Seq<Animation>, start: int)
    requires
        0 <= start,
        forall|i: int| 0 <= i < animations.len() ==> (#[trigger] animations[i]).wf(),
    ensures
        spec_animations_error(animations, start) is None,
    decreases animations.len() - start,
{
    if start < animations.len() {
        lemma_wf_animation_error_none(animations[start]);
        lemma_wf_animations_error_none(animations, start + 1);
    }
}

/// A scan that reports a problem found an animation that has one.
proof fn lemma_animations_error_some_not_wf(animations: Seq<Animation>, start: int)
    requires
        0 <= start,
        spec_animations_error(animations, start) is Some,
    ensures
        exists|i: int| 0 <= i < animations.len() && !(#[trigger] animations[i]).wf(),
    decreases animations.len() - start,
{
    if start < animations.len() {
        if spec_animation_error(animations[start]) is Some {
            lemma_animation_error_some_not_wf(animations[start]);
            assert(!animations[start].wf());
        } else {
            lemma_animations_error_some_not_wf(animations, start + 1);
        }
    }
}

/// Checks a finished scenario for the problems the validating factory
/// rejects; a scenario passes exactly when it is well formed.
pub fn scenario_problem(s: &Scenario) -> (r: Option<ScenarioError>)
    ensures
        r is None <==> s.wf(),
{
    if s.duration_ms == 0 || s.duration_ms > MAX_TIME_MS {
        return Some(ScenarioError::InvalidDuration);
    }
    if let Some(p) = s.hostages_track_a_pos {
        if p.0 < -MAX_COORD || p.0 > MAX_COORD || p.1 < -MAX_COORD || p.1 > MAX_COORD {
            return Some(ScenarioError::HostagePositionOutOfRange);
        }
    }
    if let Some(p) = s.hostages_track_b_pos {
        if p.0 < -MAX_COORD || p.0 > MAX_COORD || p.1 < -MAX_COORD || p.1 > MAX_COORD {
            return Some(ScenarioError::HostagePositionOutOfRange);
        }
    }
    if s.animations.len() == 0 {
        return Some(ScenarioError::NoAnimations);
    }
    if let Some(e) = animations_error(&s.animations) {
        proof {
            lemma_animations_error_some_not_wf(s.animations@, 0);
        }
        return Some(e);
    }
    if let Some(e) = guard_error(&s.animations, LeverState::Normal) {
        return Some(e);
    }
    if let Some(e) = guard_error(&s.animations, LeverState::Pulled) {
        return Some(e);
    }
    proof {
        crate::animation::lemma_match_count_from_bounds(s.animations@, LeverState::Normal, 0);
        crate::animation::lemma_match_count_from_bounds(s.animations@, LeverState::Pulled, 0);
        lemma_animations_error_none(s.animations@, 0);
        assert forall|i: int| 0 <= i < s.animations@.len() implies (
        #[trigger] s.animations@[i]).wf() by {
            lemma_animation_error_none_wf(s.animations@[i]);
        }
    }
    None
}

/// Builds a configuration already known to be free of problems.
pub fn build_valid(b: ScenarioBuilder) -> (r: Scenario)
    requires
        b.spec_first_error() is None,
    ensures
        r.wf(),
        r.text == b.text->0,
        r.duration_ms == b.duration_ms->0,
        r.hostages_track_a_pos == b.hostages_track_a_pos,
        r.hostages_track_b_pos == b.hostages_track_b_pos,
        r.tracks_normal_texture == b.tracks_normal_texture->0,
        r.tracks_switched_texture == b.tracks_switched_texture,
        r.lever_normal_texture == b.lever_normal_texture->0,
        r.lever_switched_texture == b.lever_switched_texture,
        r.hostages_track_a_normal_texture == b.hostages_track_a_normal_texture,
        r.hostages_track_b_normal_texture == b.hostages_track_b_normal_texture,
        r.num_hostages_track_a == b.num_hostages_track_a->0,
        r.num_hostages_track_b == b.num_hostages_track_b->0,
        r.trolley_texture_override == b.trolley_texture_override,
        r.hostages_a_scream_sound_override == b.hostages_a_scream_sound_override,
        r.hostages_b_scream_sound_override == b.hostages_b_scream_sound_override,
        r.pause_music_during_hostages_a_scream == b.pause_music_during_hostages_a_scream,
        r.pause_music_during_hostages_b_scream == b.pause_music_during_hostages_b_scream,
        r.animations@ == b.animations@,
        r.on_start == b.on_start,
        r.on_update == b.on_update,
        r.on_end == b.on_end,
        r.summary_action == b.summary_action,
{
    match b.build() {
        Ok(s) => s,
        Err(_) => vstd::pervasive::unreached(),
    }
}

/// One sprite to spawn when a scenario is entered: a texture name and a
/// screen position (thousandths of a pixel) with a z-order.
#[derive(Clone, Debug)]
pub struct SpriteSpec {
    /// The texture's short name.
    pub texture: String,
    /// The canvas x-coordinate.
    pub x: i64,
    /// The canvas y-coordinate.
    pub y: i64,
    /// The z-order.
    pub z: i64,
}

/// Everything the host must put on screen when a scenario is entered.
#[derive(Clone, Debug)]
pub struct SpawnPlan {
    /// The track texture, centred, behind everything.
    pub tracks_texture: String,
    /// The lever/player texture, centred, above the track.
    pub lever_texture: String,
    /// The track A hostages, where both a texture and a position are
    /// configured.
    pub hostages_a: Option<SpriteSpec>,
    /// The track B hostages, where both a texture and a position are
    /// configured.
    pub hostages_b: Option<SpriteSpec>,
    /// The trolley texture: the scenario's override, or the front view.
    pub trolley_texture: String,
    /// The approaching trolley's starting pose.
    pub trolley_transform: Transform2,
    /// The scenario text to display.
    pub scenario_text: String,
    /// The countdown clock's initial text.
    pub timer_text: String,
}

/// Computes everything the host must spawn on entering a scenario: the
/// track and lever sprites, the hostage groups where configured (normalized
/// to the canvas, above the track), the trolley at its horizon-approach
/// starting pose, the scenario text and the initial clock text.  The lever
/// state itself is reset by the sequencer.
pub fn scenario_setup(s: &Scenario) -> (r: SpawnPlan)
    requires
        s.wf(),
    ensures
        r.tracks_texture@ == s.tracks_normal_texture@,
        r.lever_texture@ == s.lever_normal_texture@,
        ({
            match (s.hostages_track_a_normal_texture, s.hostages_track_a_pos) {
                (Some(texture), Some(pos)) => {
                    &&& r.hostages_a is Some
                    &&& r.hostages_a->0.texture@ == texture@
                    &&& r.hostages_a->0.x == crate::util::spec_normalize_x(pos.0 as int)
                    &&& r.hostages_a->0.y == crate::util::spec_normalize_y(pos.1 as int)
                    &&& r.hostages_a->0.z == -10_000
                },
                _ => r.hostages_a is None,
            }
        }),
        ({
            match (s.hostages_track_b_normal_texture, s.hostages_track_b_pos) {
                (Some(texture), Some(pos)) => {
                    &&& r.hostages_b is Some
                    &&& r.hostages_b->0.texture@ == texture@
                    &&& r.hostages_b->0.x == crate::util::spec_normalize_x(pos.0 as int)
                    &&& r.hostages_b->0.y == crate::util::spec_normalize_y(pos.1 as int)
                    &&& r.hostages_b->0.z == -10_000
                },
                _ => r.hostages_b is None,
            }
        }),
        s.trolley_texture_override matches Some(t) ==> r.trolley_texture@ == t@,
        s.trolley_texture_override is None ==> r.trolley_texture@ == "original-trolley-front"@,
        r.trolley_transform == spec_horizon_distance_transform(
            crate::constants::APPROACHING_TROLLEY_HORIZON_POINT_X_MPX as int,
            crate::constants::APPROACHING_TROLLEY_HORIZON_POINT_Y_MPX as int,
            crate::constants::spec_approaching_trolley_horizon_end_transform(),
            s.duration_ms as int,
        ),
        r.scenario_text@ == s.text@,
        r.timer_text@ == spec_timer_text(s.duration_ms as int),
{
    let hostages_a = match (&s.hostages_track_a_normal_texture, &s.hostages_track_a_pos) {
        (Some(texture), Some(pos)) => {
            let (x, y, z) = normalize_translation_to_canvas_with_z(pos.0, pos.1, -10_000);
            Some(SpriteSpec { texture: clone_string(texture), x, y, z })
        },
        _ => None,
    };
    let hostages_b = match (&s.hostages_track_b_normal_texture, &s.hostages_track_b_pos) {
        (Some(texture), Some(pos)) => {
            let (x, y, z) = normalize_translation_to_canvas_with_z(pos.0, pos.1, -10_000);
            Some(SpriteSpec { texture: clone_string(texture), x, y, z })
        },
        _ => None,
    };
    let trolley_texture = match &s.trolley_texture_override {
        Some(t) => clone_string(t),
        None => String::from_str("original-trolley-front"),
    };
    let trolley_transform = crate::util::horizon_distance_transform(
        crate::constants::APPROACHING_TROLLEY_HORIZON_POINT_X_MPX,
        crate::constants::APPROACHING_TROLLEY_HORIZON_POINT_Y_MPX,
        crate::constants::approaching_trolley_horizon_end_transform(),
        s.duration_ms,
    );
    SpawnPlan {
        tracks_texture: clone_string(&s.tracks_normal_texture),
        lever_texture: clone_string(&s.lever_normal_texture),
        hostages_a,
        hostages_b,
        trolley_texture,
        trolley_transform,
        scenario_text: clone_string(&s.text),
        timer_text: format_timer_text(s.duration_ms),
    }
}

/// Copies a string, character for character.
fn clone_string(s: &String) -> (r: String)
    ensures
        r@ == s@,
{
    let mut r = String::new();
    r.append(s.as_str());
    proof {
        assert(r@ =~= s@);
    }
    r
}

} // verus!
