//! Trolley animation model: timed nodes, lever-guarded tracks, selection and
//! sampling.

use vstd::prelude::*;
use crate::fixed::{MAX_COORD, MAX_TIME_MS};
use crate::states::LeverState;
use crate::transform::{
    linear_animation, loop_animation, spec_linear_animation, spec_loop_offset_x,
    spec_loop_offset_y, spec_loop_rotation, Transform2, LOOP_RADIUS_MPX, SCALE_ONE_MILLI,
};

verus! {

/// The function modelling one section of an animation, as a tagged variant:
/// either the default per-component linear interpolation, or the
/// loop-the-loop circle.
#[derive(Clone, Copy, Debug, PartialEq, Eq, Structural)]
pub enum AnimationFn {
    /// Per-component linear interpolation from the previous pose.
    Linear,
    /// A full circle hanging under the starting pose.
    Loop,
}

/// An action to run when an animation node's timer expires, named for the
/// host-side behaviour it triggers.
#[derive(Clone, Copy, Debug, PartialEq, Eq, Structural)]
pub enum NodeAction {
    /// Swap the track A hostages to their wounded texture and play screams.
    ShowWoundedTrackA,
    /// Swap the track B hostages to their wounded texture and play screams.
    ShowWoundedTrackB,
    /// Turn the trolley sprite back to its side view after the switch.
    TurnTrolleySwitchedEnd,
    /// Mark that the trolley has reached the next person's switch.
    SetNextSwitchReached,
}

/// An action to run when an animation starts.
#[derive(Clone, Copy, Debug, PartialEq, Eq, Structural)]
pub enum StartAction {
    /// Turn the trolley sprite to its switching view.
    TurnTrolleySwitchedStart,
}

/// A single timed node of an animation.  Construct this using the builder
/// methods.
#[derive(Clone, Debug)]
pub struct AnimationNode {
    /// The duration in milliseconds of this section of the animation.
    pub duration_ms: u64,
    /// The end transformation value.
    pub transform: Transform2,
    /// The function to model this section of the animation transformation.
    pub animation_fn: AnimationFn,
    /// An optional action to run at the end of this section of the animation.
    pub end_action: Option<NodeAction>,
}

/// Transforms that take part in animations must leave two loop radii of
/// headroom inside the coordinate bound, so that loop offsets stay exact.
pub open spec fn pose_bounded(t: Transform2) -> bool {
    &&& -MAX_COORD + 2 * LOOP_RADIUS_MPX <= t.x <= MAX_COORD - 2 * LOOP_RADIUS_MPX
    &&& -MAX_COORD + 2 * LOOP_RADIUS_MPX <= t.y <= MAX_COORD - 2 * LOOP_RADIUS_MPX
    &&& -MAX_COORD <= t.rot_mdeg <= MAX_COORD
    &&& -MAX_COORD <= t.scale_milli <= MAX_COORD
}

/// Checks that a pose leaves the loop headroom inside the coordinate bound.
pub fn is_pose_bounded(t: &Transform2) -> (r: bool)
    ensures
        r == pose_bounded(*t),
{
    -MAX_COORD + 2 * LOOP_RADIUS_MPX <= t.x && t.x <= MAX_COORD - 2 * LOOP_RADIUS_MPX
        && -MAX_COORD + 2 * LOOP_RADIUS_MPX <= t.y && t.y <= MAX_COORD - 2 * LOOP_RADIUS_MPX
        && -MAX_COORD <= t.rot_mdeg && t.rot_mdeg <= MAX_COORD && -MAX_COORD <= t.scale_milli
        && t.scale_milli <= MAX_COORD
}

impl AnimationNode {
    /// A node is well formed when its duration is positive (so that progress
    /// is well defined) and bounded, and its target pose is bounded.
    pub open spec fn wf(self) -> bool {
        &&& 0 < self.duration_ms <= MAX_TIME_MS
        &&& pose_bounded(self.transform)
    }

    /// Creates a new animation node.  A linear animation transformation is
    /// used by default.
    pub fn new(duration_ms: u64, transform: Transform2) -> (r: AnimationNode)
        ensures
            r == (AnimationNode {
                duration_ms,
                transform,
                animation_fn: AnimationFn::Linear,
                end_action: None,
            }),
    {
        AnimationNode { duration_ms, transform, animation_fn: AnimationFn::Linear, end_action: None }
    }

    /// Configures the animation function for this node.
    pub fn animation_fn(self, f: AnimationFn) -> (r: AnimationNode)
        ensures
            r == (AnimationNode { animation_fn: f, ..self }),
    {
        AnimationNode { animation_fn: f, ..self }
    }

    /// Configures an action to run at the end of this section of the
    /// animation.
    pub fn end_action(self, action: NodeAction) -> (r: AnimationNode)
        ensures
            r == (AnimationNode { end_action: Some(action), ..self }),
    {
        AnimationNode { end_action: Some(action), ..self }
    }
}

/// A trolley animation within a scenario: an optional lever-state guard, a
/// starting pose, an optional start action, a non-empty list of timed nodes,
/// and an optional wounded texture.  Construct this using the builder
/// methods.
#[derive(Clone, Debug)]
pub struct Animation {
    /// An optional lever-state-related condition to decide whether to run
    /// the animation.  An animation without a condition runs whatever the
    /// lever state.
    pub lever_state_condition: Option<LeverState>,
    /// The animation start transformation.
    pub start_transform: Transform2,
    /// An optional action to run at the start of the animation.
    pub start_action: Option<StartAction>,
    /// The collection of animation nodes.
    pub nodes: Vec<AnimationNode>,
    /// The optional wounded texture.
    pub wounded_texture: Option<String>,
}

impl Animation {
    /// An animation is well formed when it has at least one node, all its
    /// nodes are well formed and its starting pose is bounded.
    pub open spec fn wf(self) -> bool {
        &&& self.nodes@.len() > 0
        &&& forall|i: int| 0 <= i < self.nodes@.len() ==> (#[trigger] self.nodes@[i]).wf()
        &&& pose_bounded(self.start_transform)
    }

    /// Creates a new animation, given the starting transformation.
    pub fn new(start_transform: Transform2) -> (r: Animation)
        ensures
            r.lever_state_condition == Option::<LeverState>::None,
            r.start_transform == start_transform,
            r.start_action == Option::<StartAction>::None,
            r.nodes@ == Seq::<AnimationNode>::empty(),
            r.wounded_texture == Option::<String>::None,
    {
        Animation {
            lever_state_condition: None,
            start_transform,
            start_action: None,
            nodes: Vec::new(),
            wounded_texture: None,
        }
    }

    /// Configures an action to run at the start of the animation.
    pub fn with_start_action(self, action: StartAction) -> (r: Animation)
        ensures
            r == (Animation { start_action: Some(action), ..self }),
    {
        Animation { start_action: Some(action), ..self }
    }

    /// Configures the lever state condition that will decide whether to run
    /// the animation.
    pub fn on_lever_state(self, lever_state_condition: LeverState) -> (r: Animation)
        ensures
            r == (Animation { lever_state_condition: Some(lever_state_condition), ..self }),
    {
        Animation { lever_state_condition: Some(lever_state_condition), ..self }
    }

    /// Adds a new node to the animation.
    pub fn node(self, node: AnimationNode) -> (r: Animation)
        ensures
            r.lever_state_condition == self.lever_state_condition,
            r.start_transform == self.start_transform,
            r.start_action == self.start_action,
            r.nodes@ == self.nodes@.push(node),
            r.wounded_texture == self.wounded_texture,
    {
        let mut nodes = self.nodes;
        nodes.push(node);
        Animation { nodes, ..self }
    }

    /// Configures the wounded texture.
    pub fn with_wounded_texture(self, wounded_texture: String) -> (r: Animation)
        ensures
            r == (Animation { wounded_texture: Some(wounded_texture), ..self }),
    {
        Animation { wounded_texture: Some(wounded_texture), ..self }
    }

    /// The pose the trolley moves from while the given node plays: the
    /// previous node's target, or the animation's start pose for the first
    /// node.
    pub open spec fn spec_from_transform(self, node_index: int) -> Transform2 {
        if node_index == 0 {
            self.start_transform
        } else {
            self.nodes@[node_index - 1].transform
        }
    }

    /// The pose the trolley moves from while the given node plays.
    pub fn from_transform(&self, node_index: usize) -> (r: Transform2)
        requires
            node_index < self.nodes@.len(),
        ensures
            r == self.spec_from_transform(node_index as int),
    {
        if node_index == 0 {
            self.start_transform
        } else {
            self.nodes[node_index - 1].transform
        }
    }

    /// The trolley pose while the given node plays, `elapsed_ms` into the
    /// node's duration.  Linear nodes interpolate from the previous pose to
    /// the node's target; the loop node traces its circle under the previous
    /// pose.  Progress 0 is exactly the previous pose, and for linear nodes
    /// progress 1 is exactly the target pose.
    pub fn sample(&self, node_index: usize, elapsed_ms: u64) -> (r: Transform2)
        requires
            self.wf(),
            node_index < self.nodes@.len(),
            elapsed_ms <= self.nodes@[node_index as int].duration_ms,
        ensures
            ({
                let node = self.nodes@[node_index as int];
                let from = self.spec_from_transform(node_index as int);
                match node.animation_fn {
                    AnimationFn::Linear => r == spec_linear_animation(
                        from,
                        node.transform,
                        elapsed_ms as int,
                        node.duration_ms as int,
                    ),
                    AnimationFn::Loop => {
                        &&& r.x == from.x + spec_loop_offset_x(
                            elapsed_ms as int,
                            node.duration_ms as int,
                        )
                        &&& r.y == from.y + spec_loop_offset_y(
                            elapsed_ms as int,
                            node.duration_ms as int,
                        )
                        &&& r.rot_mdeg == spec_loop_rotation(
                            elapsed_ms as int,
                            node.duration_ms as int,
                        )
                        &&& r.scale_milli == SCALE_ONE_MILLI
                    },
                }
            }),
            r.in_range(),
    {
        let node = &self.nodes[node_index];
        let from = self.from_transform(node_index);
        match node.animation_fn {
            AnimationFn::Linear => linear_animation(
                from,
                node.transform,
                elapsed_ms,
                node.duration_ms,
            ),
            AnimationFn::Loop => loop_animation(from, node.transform, elapsed_ms, node.duration_ms),
        }
    }
}

/// Whether an animation's guard admits the given lever state: a missing
/// guard admits every state.
pub open spec fn spec_guard_matches(guard: Option<LeverState>, lever: LeverState) -> bool {
    match guard {
        Option::None => true,
        Option::Some(desired) => desired == lever,
    }
}

/// Whether an animation's guard admits the given lever state.
pub fn guard_matches(guard: &Option<LeverState>, lever: LeverState) -> (r: bool)
    ensures
        r == spec_guard_matches(*guard, lever),
{
    match guard {
        Option::None => true,
        Option::Some(desired) => *desired == lever,
    }
}

/// The index of the first animation whose guard admits the lever state, if
/// any, starting the search at `start`.
pub open spec fn spec_select_from(
    animations: Seq<Animation>,
    lever: LeverState,
    start: int,
) -> Option<int>
    decreases animations.len() - start,
{
    if start < 0 || start >= animations.len() {
        Option::None
    } else if spec_guard_matches(animations[start].lever_state_condition, lever) {
        Option::Some(start)
    } else {
        spec_select_from(animations, lever, start + 1)
    }
}

/// The index of the first animation whose guard admits the lever state.
pub open spec fn spec_select(animations: Seq<Animation>, lever: LeverState) -> Option<int> {
    spec_select_from(animations, lever, 0)
}

/// How many animations' guards admit the lever state, counting from `start`.
pub open spec fn spec_match_count_from(
    animations: Seq<Animation>,
    lever: LeverState,
    start: int,
) -> int
    decreases animations.len() - start,
{
    if start < 0 || start >= animations.len() {
        0
    } else {
        (if spec_guard_matches(animations[start].lever_state_condition, lever) {
            1int
        } else {
            0int
        }) + spec_match_count_from(animations, lever, start + 1)
    }
}

/// How many animations' guards admit the lever state.
pub open spec fn spec_match_count(animations: Seq<Animation>, lever: LeverState) -> int {
    spec_match_count_from(animations, lever, 0)
}

/// Counts the animations whose guards admit the lever state.
pub fn match_count(animations: &Vec<Animation>, lever: LeverState) -> (r: u64)
    requires
        animations@.len() <= u64::MAX,
    ensures
        r == spec_match_count(animations@, lever),
{
    let n = animations.len();
    let mut count: u64 = 0;
    let mut i: usize = 0;
    proof {
        lemma_match_count_from_bounds(animations@, lever, 0);
    }
    while i < n
        invariant
            i <= n,
            n == animations@.len(),
            n <= u64::MAX,
            count + spec_match_count_from(animations@, lever, i as int) == spec_match_count(
                animations@,
                lever,
            ),
            count <= i,
        decreases n - i,
    {
        proof {
            lemma_match_count_from_bounds(animations@, lever, i + 1);
        }
        if guard_matches(&animations[i].lever_state_condition, lever) {
            count = count + 1;
        }
        i = i + 1;
    }
    count
}

/// The count of matches from any starting point is between zero and the
/// number of animations left.
pub proof fn lemma_match_count_from_bounds(
    animations: Seq<Animation>,
    lever: LeverState,
    start: int,
)
    ensures
        0 <= spec_match_count_from(animations, lever, start),
        start >= 0 ==> spec_match_count_from(animations, lever, start) <= animations.len() - start
            || animations.len() <= start,
    decreases animations.len() - start,
{
    if 0 <= start < animations.len() {
        lemma_match_count_from_bounds(animations, lever, start + 1);
    }
}

/// Wherever at least one animation matches, selection finds one.
pub proof fn lemma_match_count_select(animations: Seq<Animation>, lever: LeverState, start: int)
    requires
        spec_match_count_from(animations, lever, start) > 0,
    ensures
        spec_select_from(animations, lever, start) is Some,
    decreases animations.len() - start,
{
    if 0 <= start < animations.len() {
        if !spec_guard_matches(animations[start].lever_state_condition, lever) {
            lemma_match_count_select(animations, lever, start + 1);
        }
    }
}

/// Selects the animation to play when the countdown expires: the first one
/// whose guard matches the lever state, an unguarded animation matching
/// either state.
pub fn select_animation(animations: &Vec<Animation>, lever: LeverState) -> (r: Option<usize>)
    ensures
        r matches Some(i) ==> {
            &&& i < animations@.len()
            &&& spec_guard_matches(animations@[i as int].lever_state_condition, lever)
            &&& forall|j: int| 0 <= j < i ==> !spec_guard_matches(
                (#[trigger] animations@[j]).lever_state_condition,
                lever,
            )
            &&& spec_select(animations@, lever) == Some(i as int)
        },
        r is None ==> {
            &&& forall|j: int| 0 <= j < animations@.len() ==> !spec_guard_matches(
                (#[trigger] animations@[j]).lever_state_condition,
                lever,
            )
            &&& spec_select(animations@, lever) is None
        },
{
    let n = animations.len();
    let mut i: usize = 0;
    while i < n
        invariant
            i <= n,
            n == animations@.len(),
            forall|j: int| 0 <= j < i ==> !spec_guard_matches(
                (#[trigger] animations@[j]).lever_state_condition,
                lever,
            ),
            spec_select(animations@, lever) == spec_select_from(animations@, lever, i as int),
        decreases n - i,
    {
        if guard_matches(&animations[i].lever_state_condition, lever) {
            return Some(i);
        }
        i = i + 1;
    }
    None
}

/// Selection always takes a guard that names the lever state over any guard
/// that does not: with one animation guarded on each lever state, pulling
/// the lever selects the `Pulled`-guarded animation and leaving it selects
/// the `Normal`-guarded one, never the other, whichever order they are
/// declared in.
pub proof fn lemma_select_two_guarded(animations: Seq<Animation>, lever: LeverState)
    requires
        animations.len() == 2,
        animations[0].lever_state_condition is Some,
        animations[1].lever_state_condition is Some,
        animations[0].lever_state_condition != animations[1].lever_state_condition,
        animations[0].lever_state_condition == Some(lever) || animations[1].lever_state_condition
            == Some(lever),
    ensures
        ({
            let i = spec_select(animations, lever)->0;
            &&& spec_select(animations, lever) is Some
            &&& animations[i].lever_state_condition == Some(lever)
        }),
{
    if spec_guard_matches(animations[0].lever_state_condition, lever) {
        assert(animations[0].lever_state_condition == Some(lever));
        assert(spec_select_from(animations, lever, 0) == Some(0int));
    } else {
        assert(animations[1].lever_state_condition == Some(lever));
        assert(spec_select_from(animations, lever, 1) == Some(1int));
        assert(spec_select_from(animations, lever, 0) == Some(1int));
    }
}

/// A scenario whose animations are all unguarded plays identically whatever
/// the lever state: selection does not read the lever at all in that case,
/// so the same animation is chosen for every lever state.
pub proof fn lemma_select_unguarded_ignores_lever(
    animations: Seq<Animation>,
    lever_a: LeverState,
    lever_b: LeverState,
)
    requires
        forall|j: int| 0 <= j < animations.len() ==> (#[trigger] animations[j]).lever_state_condition
            is None,
    ensures
        spec_select(animations, lever_a) == spec_select(animations, lever_b),
        animations.len() > 0 ==> spec_select(animations, lever_a) == Some(0int),
{
}

/// With exactly one animation guarded on each lever state, each lever state
/// admits exactly one animation.
pub proof fn lemma_two_guard_partition(animations: Seq<Animation>)
    requires
        animations.len() == 2,
        animations[0].lever_state_condition == Some(LeverState::Normal),
        animations[1].lever_state_condition == Some(LeverState::Pulled),
    ensures
        spec_match_count(animations, LeverState::Normal) == 1,
        spec_match_count(animations, LeverState::Pulled) == 1,
{
    assert(spec_match_count_from(animations, LeverState::Normal, 2) == 0);
    assert(spec_match_count_from(animations, LeverState::Normal, 1) == 0);
    assert(spec_match_count_from(animations, LeverState::Normal, 0) == 1);
    assert(spec_match_count_from(animations, LeverState::Pulled, 2) == 0);
    assert(spec_match_count_from(animations, LeverState::Pulled, 1) == 1);
    assert(spec_match_count_from(animations, LeverState::Pulled, 0) == 1);
}

/// A single unguarded animation admits every lever state exactly once.
pub proof fn lemma_single_unguarded_partition(animations: Seq<Animation>)
    requires
        animations.len() == 1,
        animations[0].lever_state_condition is None,
    ensures
        spec_match_count(animations, LeverState::Normal) == 1,
        spec_match_count(animations, LeverState::Pulled) == 1,
{
    assert(spec_match_count_from(animations, LeverState::Normal, 1) == 0);
    assert(spec_match_count_from(animations, LeverState::Pulled, 1) == 0);
}

} // verus!
