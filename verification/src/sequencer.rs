//! The scenario/animation sequencer: one composite state machine that walks
//! the scenario list, runs each countdown, plays the selected animation
//! through its timed nodes, accumulates the summary and moves on.
//!
//! Each call to `tick` advances the machine by one frame's worth of wall
//! time and returns the effects the host should perform (sprite and texture
//! changes, sounds, spawns).  The host performs effects; it decides nothing.

use vstd::prelude::*;
use crate::animation::{
    lemma_match_count_select, select_animation, spec_select, AnimationNode, NodeAction,
    StartAction,
};
use crate::constants::{
    APPROACHING_TROLLEY_HORIZON_POINT_X_MPX, APPROACHING_TROLLEY_HORIZON_POINT_Y_MPX,
    LEVER_RECT_MAX_X_MPX, LEVER_RECT_MAX_Y_MPX, LEVER_RECT_MIN_X_MPX, LEVER_RECT_MIN_Y_MPX,
    POST_ANIMATION_WAIT_MS, TROLLEY_SIDE_TIME_MS, TROLLEY_TURNING_TIME_MS,
};
use crate::transform::Transform2;
use crate::scenario::{Scenario, ScenarioEndAction, ScenarioError, ScenarioStartAction,
    ScenarioUpdateAction};
use crate::states::{GameState, LeverState, Phase, SelfJumping};
use crate::summary::{apply_summary_action, spec_apply_summary, GameSummary};
use crate::timer::CountdownTimer;

verus! {

/// The most scenarios one playthrough may hold; it keeps the summary
/// counters far from overflow.
pub const MAX_SCENARIOS: usize = 100_000;

/// Why a sequencer could not be built.
#[derive(Clone, Copy, Debug, PartialEq, Eq, Structural)]
pub enum SequencerError {
    /// The scenario list is longer than a playthrough may be.
    TooManyScenarios,
    /// A scenario in the list is not well formed.
    InvalidScenario {
        /// The index of the offending scenario.
        scenario: usize,
        /// What is wrong with it.
        error: ScenarioError,
    },
}

/// One host-visible effect of a sequencer step, in the order produced.
#[derive(Clone, Copy, Debug, PartialEq, Eq, Structural)]
pub enum Effect {
    /// A scenario became active: spawn its entities and run its start
    /// action.
    ScenarioEntered {
        /// The index of the scenario entered.
        scenario: usize,
        /// The scenario's start action, if any.
        on_start: Option<ScenarioStartAction>,
    },
    /// Play the lever switch sound.
    PlaySwitchSound,
    /// The lever changed: swap the track and lever textures accordingly.
    LeverChanged {
        /// Whether the lever now stands pulled.
        pulled: bool,
    },
    /// Update the countdown clock display for this remaining time.
    TimerText {
        /// The remaining countdown time, in milliseconds.
        remaining_ms: u64,
    },
    /// The trolley begins its turn: swap to the turning texture.
    TrolleyTurning,
    /// The trolley comes side-on: swap to the side texture.
    TrolleySideOn,
    /// The countdown expired and this animation was selected.
    AnimationStarted {
        /// The index of the selected animation.
        animation: usize,
        /// The animation's start action, if any.
        start_action: Option<StartAction>,
    },
    /// The player jumped onto the track in front of the trolley.
    PlayerJumped,
    /// The player who jumped in front of the trolley has been run over.
    PlayerRunOver,
    /// An animation node's time ran out: run its end action.
    NodeEnded {
        /// The index of the node that ended.
        node: usize,
        /// The node's end action, if any.
        end_action: Option<NodeAction>,
    },
    /// The whole animation completed: the summary has been accumulated and
    /// the scenario's end action should run.
    AnimationComplete {
        /// The scenario's end action, if any.
        on_end: Option<ScenarioEndAction>,
    },
    /// The post-animation wait expired: despawn the scenario's entities.
    ScenarioExited {
        /// The index of the scenario left behind.
        scenario: usize,
    },
    /// The last scenario finished: the end screen takes over.
    GameEnded,
    /// The music pause ran out: let the music play on.
    ResumeMusic,
}

/// How many scenarios stand completed in the given phase: their outcomes
/// are already in the summary.
pub open spec fn spec_done(phase: Phase, len: int) -> int {
    match phase {
        Phase::Menu => 0,
        Phase::Countdown { scenario } => scenario as int,
        Phase::Animating { scenario, .. } => scenario as int,
        Phase::PostWait { scenario } => scenario + 1,
        Phase::End => len,
    }
}

/// The summary counters never exceed what the completed scenarios could
/// have contributed.
pub open spec fn spec_summary_bounded(s: GameSummary, done: int) -> bool {
    &&& s.people_killed <= 10 * done
    &&& s.people_saved <= 10 * done
    &&& s.lobsters_killed <= 5 * done
    &&& s.lobsters_saved <= 5 * done
}

/// The scenario/animation sequencer.
pub struct Sequencer {
    /// The validated scenario list, fixed for the whole playthrough.
    pub scenarios: Vec<Scenario>,
    /// Where the machine stands.
    pub phase: Phase,
    /// The lever state, reset on every scenario entry.
    pub lever: LeverState,
    /// The active timer: the countdown, the playing node's timer, or the
    /// post-animation wait, depending on the phase.
    pub timer: CountdownTimer,
    /// The running outcome summary.
    pub summary: GameSummary,
    /// Whether the player has jumped, in the self-sacrifice scenario.
    pub jumping: SelfJumping,
    /// The music pause timer, while the music stands paused.
    pub music_pause: Option<CountdownTimer>,
}

impl Sequencer {
    /// The sequencer's invariant: scenarios are well formed, the phase
    /// indices are in range, the active timer belongs to the phase and has
    /// not yet expired, the selected animation is the one the lever picks,
    /// and the summary is bounded by the finished scenarios.
    pub open spec fn wf(self) -> bool {
        &&& self.scenarios@.len() <= MAX_SCENARIOS
        &&& forall|i: int| 0 <= i < self.scenarios@.len() ==> (
        #[trigger] self.scenarios@[i]).wf()
        &&& self.timer.wf()
        &&& match self.phase {
            Phase::Menu => self.summary == GameSummary::spec_new(),
            Phase::Countdown { scenario } => {
                &&& scenario < self.scenarios@.len()
                &&& self.timer.duration_ms == self.scenarios@[scenario as int].duration_ms
                &&& !self.timer.spec_finished()
            },
            Phase::Animating { scenario, animation, node } => {
                &&& scenario < self.scenarios@.len()
                &&& spec_select(self.scenarios@[scenario as int].animations@, self.lever)
                    == Some(animation as int)
                &&& animation < self.scenarios@[scenario as int].animations@.len()
                &&& node < self.scenarios@[scenario as int].animations@[
                    animation as int
                ].nodes@.len()
                &&& self.timer.duration_ms == self.scenarios@[scenario as int].animations@[
                    animation as int
                ].nodes@[node as int].duration_ms
                &&& !self.timer.spec_finished()
            },
            Phase::PostWait { scenario } => {
                &&& scenario < self.scenarios@.len()
                &&& self.timer.duration_ms == POST_ANIMATION_WAIT_MS
                &&& !self.timer.spec_finished()
            },
            Phase::End => true,
        }
        &&& spec_summary_bounded(self.summary, spec_done(self.phase, self.scenarios@.len() as int))
        &&& (self.music_pause matches Some(t) ==> t.wf())
    }

    /// Builds a sequencer over a scenario list, validating every scenario.
    /// It starts at the menu with a fresh summary.
    pub fn new(scenarios: Vec<Scenario>) -> (r: Result<Sequencer, SequencerError>)
        ensures
            r is Ok <==> scenarios@.len() <= MAX_SCENARIOS && (forall|i: int|
                0 <= i < scenarios@.len() ==> (#[trigger] scenarios@[i]).wf()),
            r matches Ok(seq) ==> {
                &&& seq.scenarios@ == scenarios@
                &&& seq.phase == Phase::Menu
                &&& seq.lever == LeverState::Normal
                &&& seq.summary == GameSummary::spec_new()
                &&& seq.jumping == SelfJumping::NotJumping
                &&& seq.music_pause is None
                &&& seq.wf()
            },
            r matches Err(e) ==> match e {
                SequencerError::TooManyScenarios => scenarios@.len() > MAX_SCENARIOS,
                SequencerError::InvalidScenario { scenario, error } => {
                    &&& scenario < scenarios@.len()
                    &&& !scenarios@[scenario as int].wf()
                },
            },
    {
        if scenarios.len() > MAX_SCENARIOS {
            return Err(SequencerError::TooManyScenarios);
        }
        let n = scenarios.len();
        let mut i: usize = 0;
        while i < n
            invariant
                i <= n,
                n == scenarios@.len(),
                forall|j: int| 0 <= j < i ==> (#[trigger] scenarios@[j]).wf(),
            decreases n - i,
        {
            if let Some(e) = crate::scenario::scenario_problem(&scenarios[i]) {
                return Err(SequencerError::InvalidScenario { scenario: i, error: e });
            }
            i = i + 1;
        }
        Ok(Sequencer {
            scenarios,
            phase: Phase::Menu,
            lever: LeverState::Normal,
            timer: CountdownTimer::new(1),
            summary: GameSummary::new(),
            jumping: SelfJumping::NotJumping,
            music_pause: None,
        })
    }

    /// The effects of entering the given scenario.
    pub open spec fn spec_enter_effects(self, scenario: int) -> Seq<Effect> {
        seq![
            Effect::ScenarioEntered {
                scenario: scenario as usize,
                on_start: self.scenarios@[scenario].on_start,
            },
        ]
    }

    /// Leaves the menu and starts the playthrough: the first scenario's
    /// countdown begins, or, with no scenarios at all, the end screen comes
    /// straight up.
    pub fn start_game(&mut self) -> (effects: Vec<Effect>)
        requires
            old(self).wf(),
            old(self).phase == Phase::Menu,
        ensures
            final(self).wf(),
            final(self).scenarios@ == old(self).scenarios@,
            final(self).summary == old(self).summary,
            old(self).scenarios@.len() == 0 ==> final(self).phase == Phase::End && effects@
                == seq![Effect::GameEnded],
            old(self).scenarios@.len() > 0 ==> {
                &&& final(self).phase == (Phase::Countdown { scenario: 0 })
                &&& final(self).lever == LeverState::Normal
                &&& final(self).jumping == SelfJumping::NotJumping
                &&& final(self).timer.duration_ms == old(self).scenarios@[0].duration_ms
                &&& final(self).timer.elapsed_ms == 0
                &&& effects@ == old(self).spec_enter_effects(0)
            },
    {
        let mut effects: Vec<Effect> = Vec::new();
        if self.scenarios.len() == 0 {
            self.phase = Phase::End;
            effects.push(Effect::GameEnded);
            proof {
                assert(effects@ =~= seq![Effect::GameEnded]);
            }
        } else {
            self.lever = LeverState::Normal;
            self.jumping = SelfJumping::NotJumping;
            self.timer = CountdownTimer::new(self.scenarios[0].duration_ms);
            self.phase = Phase::Countdown { scenario: 0 };
            effects.push(Effect::ScenarioEntered {
                scenario: 0,
                on_start: self.scenarios[0].on_start,
            });
            proof {
                assert(effects@ =~= old(self).spec_enter_effects(0));
            }
        }
        effects
    }

    /// Leaves the end screen for the menu, dropping the finished summary
    /// for a fresh one.
    pub fn back_to_menu(&mut self)
        requires
            old(self).wf(),
            old(self).phase == Phase::End,
        ensures
            final(self).wf(),
            final(self).scenarios@ == old(self).scenarios@,
            final(self).phase == Phase::Menu,
            final(self).summary == GameSummary::spec_new(),
    {
        self.phase = Phase::Menu;
        self.summary = GameSummary::new();
    }
}

/// The outcome of feeding one delta to an animation standing at `node` with
/// `elapsed` time into it: whether the animation completed, the node and
/// elapsed time reached, and the indices of the nodes whose end was passed,
/// in order.  A tick whose delta spans several nodes passes them all, in
/// order, dropping none.
pub open spec fn spec_advance_nodes(
    nodes: Seq<AnimationNode>,
    node: int,
    elapsed: int,
    delta: int,
) -> (bool, int, int, Seq<int>)
    decreases nodes.len() - node,
{
    if node < 0 || node >= nodes.len() {
        (true, node, 0int, Seq::empty())
    } else if elapsed + delta < nodes[node].duration_ms {
        (false, node, elapsed + delta, Seq::empty())
    } else if node + 1 == nodes.len() {
        (true, node + 1, 0int, seq![node])
    } else {
        let rest = spec_advance_nodes(
            nodes,
            node + 1,
            0,
            delta - (nodes[node].duration_ms - elapsed),
        );
        (rest.0, rest.1, rest.2, seq![node] + rest.3)
    }
}

/// The node-end effects for a list of passed nodes.
pub open spec fn spec_node_effects(nodes: Seq<AnimationNode>, events: Seq<int>) -> Seq<Effect> {
    events.map_values(
        |n: int| Effect::NodeEnded { node: n as usize, end_action: nodes[n].end_action },
    )
}

/// Advances an animation from `node` with `elapsed` time into it by
/// `delta`, pushing one node-end effect for every node passed, in index
/// order, and reporting where the animation now stands.
fn advance_nodes(
    anim: &crate::animation::Animation,
    node: usize,
    elapsed: u64,
    delta: u64,
    effects: &mut Vec<Effect>,
) -> (r: (bool, usize, u64))
    requires
        anim.wf(),
        node < anim.nodes@.len(),
        elapsed < anim.nodes@[node as int].duration_ms,
    ensures
        ({
            let adv = spec_advance_nodes(anim.nodes@, node as int, elapsed as int, delta as int);
            &&& r.0 == adv.0
            &&& r.1 == adv.1
            &&& r.2 == adv.2
            &&& final(effects)@ == old(effects)@ + spec_node_effects(anim.nodes@, adv.3)
            &&& (!adv.0 ==> node <= r.1 < anim.nodes@.len() && r.2 < anim.nodes@[
                r.1 as int
            ].duration_ms)
            &&& (adv.0 ==> r.1 == anim.nodes@.len())
        }),
    decreases anim.nodes@.len() - node,
{
    let n = anim.nodes.len();
    let dur = anim.nodes[node].duration_ms;
    if delta < dur - elapsed {
        proof {
            assert(final(effects)@ =~= old(effects)@ + spec_node_effects(
                anim.nodes@,
                Seq::empty(),
            ));
        }
        (false, node, elapsed + delta)
    } else {
        effects.push(Effect::NodeEnded { node, end_action: anim.nodes[node].end_action });
        let leftover = delta - (dur - elapsed);
        if node + 1 == n {
            proof {
                assert(effects@ =~= old(effects)@ + spec_node_effects(
                    anim.nodes@,
                    seq![node as int],
                ));
            }
            (true, node + 1, 0)
        } else {
            let ghost mid = effects@;
            let r = advance_nodes(anim, node + 1, 0, leftover, effects);
            proof {
                let rest = spec_advance_nodes(
                    anim.nodes@,
                    node as int + 1,
                    0,
                    leftover as int,
                );
                assert(effects@ =~= old(effects)@ + spec_node_effects(
                    anim.nodes@,
                    seq![node as int] + rest.3,
                ));
            }
            r
        }
    }
}

impl Sequencer {
    /// The music pause timer after one tick: gone once it fires.
    pub open spec fn spec_music_after(self, delta_ms: u64) -> Option<CountdownTimer> {
        match self.music_pause {
            None => None,
            Some(t) => if t.spec_fires(delta_ms) {
                None
            } else {
                Some(t.spec_tick(delta_ms))
            },
        }
    }

    /// The music effect of one tick: the resume signal exactly when the
    /// pause runs out.
    pub open spec fn spec_music_effects(self, delta_ms: u64) -> Seq<Effect> {
        match self.music_pause {
            Some(t) => if t.spec_fires(delta_ms) {
                seq![Effect::ResumeMusic]
            } else {
                Seq::empty()
            },
            None => Seq::empty(),
        }
    }

    /// Pauses the game music for the given positive time; the tick that
    /// sees the pause run out produces the resume effect.
    pub fn pause_music(&mut self, duration_ms: u64)
        requires
            old(self).wf(),
            duration_ms > 0,
        ensures
            final(self).wf(),
            *final(self) == (Sequencer {
                music_pause: Some(CountdownTimer { duration_ms, elapsed_ms: 0 }),
                ..*old(self)
            }),
    {
        self.music_pause = Some(CountdownTimer::new(duration_ms));
    }

    /// One countdown tick: the clock display updates, the trolley turns at
    /// its thresholds, and the countdown expiring selects and starts the
    /// animation the lever state picks.
    #[verifier::rlimit(100)]
    fn tick_countdown(&mut self, delta_ms: u64, scenario: usize) -> (effects: Vec<Effect>)
        requires
            old(self).wf(),
            old(self).phase == (Phase::Countdown { scenario }),
        ensures
            final(self).wf(),
            final(self).scenarios@ == old(self).scenarios@,
            final(self).music_pause == old(self).music_pause,
            final(self).lever == old(self).lever,
            final(self).summary == old(self).summary,
            final(self).jumping == old(self).jumping,
            ({
                let sc = old(self).scenarios@[scenario as int];
                let fired = old(self).timer.spec_fires(delta_ms);
                let t2 = old(self).timer.spec_tick(delta_ms);
                let prev_rem = old(self).timer.duration_ms - old(self).timer.elapsed_ms;
                let cur_rem = t2.duration_ms - t2.elapsed_ms;
                let overridden = sc.trolley_texture_override is Some;
                let turning: Seq<Effect> = if !overridden && prev_rem >= TROLLEY_TURNING_TIME_MS
                    >= cur_rem {
                    seq![Effect::TrolleyTurning]
                } else {
                    Seq::empty()
                };
                let side: Seq<Effect> = if !overridden && prev_rem >= TROLLEY_SIDE_TIME_MS
                    >= cur_rem {
                    seq![Effect::TrolleySideOn]
                } else {
                    Seq::empty()
                };
                let base = seq![Effect::TimerText { remaining_ms: cur_rem as u64 }] + turning
                    + side;
                &&& !fired ==> final(self).phase == old(self).phase && final(self).timer == t2
                    && effects@ == base
                &&& fired ==> {
                    let a = spec_select(sc.animations@, old(self).lever)->0;
                    let anim = sc.animations@[a];
                    &&& spec_select(sc.animations@, old(self).lever) is Some
                    &&& final(self).phase == (Phase::Animating {
                        scenario,
                        animation: a as usize,
                        node: 0,
                    })
                    &&& final(self).timer == (CountdownTimer {
                        duration_ms: anim.nodes@[0].duration_ms,
                        elapsed_ms: 0,
                    })
                    &&& effects@ == base + seq![
                        Effect::AnimationStarted {
                            animation: a as usize,
                            start_action: anim.start_action,
                        },
                    ]
                }
            }),
    {
        let mut effects: Vec<Effect> = Vec::new();
        proof {
            assert(self.scenarios@[scenario as int].wf());
        }
        let prev_rem = self.timer.remaining_ms();
        let fired = self.timer.tick(delta_ms);
        let cur_rem = self.timer.remaining_ms();
        effects.push(Effect::TimerText { remaining_ms: cur_rem });
        let overridden = self.scenarios[scenario].trolley_texture_override.is_some();
        if !overridden && crate::util::time_remaining_reached(
            prev_rem,
            cur_rem,
            TROLLEY_TURNING_TIME_MS,
        ) {
            effects.push(Effect::TrolleyTurning);
        }
        if !overridden && crate::util::time_remaining_reached(
            prev_rem,
            cur_rem,
            TROLLEY_SIDE_TIME_MS,
        ) {
            effects.push(Effect::TrolleySideOn);
        }
        if fired {
            proof {
                crate::animation::lemma_match_count_from_bounds(
                    self.scenarios@[scenario as int].animations@,
                    self.lever,
                    0,
                );
                lemma_match_count_select(
                    self.scenarios@[scenario as int].animations@,
                    self.lever,
                    0,
                );
            }
            let selected = select_animation(&self.scenarios[scenario].animations, self.lever);
            let a = selected.unwrap();
            proof {
                assert(self.scenarios@[scenario as int].animations@[a as int].wf());
            }
            let dur = self.scenarios[scenario].animations[a].nodes[0].duration_ms;
            self.timer = CountdownTimer::new(dur);
            self.phase = Phase::Animating { scenario, animation: a, node: 0 };
            effects.push(Effect::AnimationStarted {
                animation: a,
                start_action: self.scenarios[scenario].animations[a].start_action,
            });
        }
        proof {
            let sc = old(self).scenarios@[scenario as int];
            let t2 = old(self).timer.spec_tick(delta_ms);
            let prev_rem_g = old(self).timer.duration_ms - old(self).timer.elapsed_ms;
            let cur_rem_g = t2.duration_ms - t2.elapsed_ms;
            let overridden_g = sc.trolley_texture_override is Some;
            let turning: Seq<Effect> = if !overridden_g && prev_rem_g >= TROLLEY_TURNING_TIME_MS
                >= cur_rem_g {
                seq![Effect::TrolleyTurning]
            } else {
                Seq::empty()
            };
            let side: Seq<Effect> = if !overridden_g && prev_rem_g >= TROLLEY_SIDE_TIME_MS
                >= cur_rem_g {
                seq![Effect::TrolleySideOn]
            } else {
                Seq::empty()
            };
            let base = seq![Effect::TimerText { remaining_ms: cur_rem_g as u64 }] + turning + side;
            if old(self).timer.spec_fires(delta_ms) {
                let a = spec_select(sc.animations@, old(self).lever)->0;
                let anim = sc.animations@[a];
                assert(effects@ =~= base + seq![
                    Effect::AnimationStarted {
                        animation: a as usize,
                        start_action: anim.start_action,
                    },
                ]);
            } else {
                assert(effects@ =~= base);
            }
        }
        effects
    }

    /// One animation tick: a jumped player is run over, the nodes passed by
    /// this frame's delta end in order, and the animation completing
    /// accumulates the summary and starts the post-animation wait.
    #[verifier::rlimit(100)]
    fn tick_animating(
        &mut self,
        delta_ms: u64,
        scenario: usize,
        animation: usize,
        node: usize,
    ) -> (effects: Vec<Effect>)
        requires
            old(self).wf(),
            old(self).phase == (Phase::Animating { scenario, animation, node }),
        ensures
            final(self).wf(),
            final(self).scenarios@ == old(self).scenarios@,
            final(self).music_pause == old(self).music_pause,
            final(self).lever == old(self).lever,
            ({
                let sc = old(self).scenarios@[scenario as int];
                let anim = sc.animations@[animation as int];
                let run_over = sc.on_update == Some(ScenarioUpdateAction::SelfUpdate) && old(
                    self,
                ).jumping == SelfJumping::Jumping;
                let jump: Seq<Effect> = if run_over {
                    seq![Effect::PlayerRunOver]
                } else {
                    Seq::empty()
                };
                let new_jumping = if run_over {
                    SelfJumping::RunOver
                } else {
                    old(self).jumping
                };
                let adv = spec_advance_nodes(
                    anim.nodes@,
                    node as int,
                    old(self).timer.elapsed_ms as int,
                    delta_ms as int,
                );
                let node_effs = spec_node_effects(anim.nodes@, adv.3);
                &&& final(self).jumping == new_jumping
                &&& !adv.0 ==> {
                    &&& final(self).phase == (Phase::Animating {
                        scenario,
                        animation,
                        node: adv.1 as usize,
                    })
                    &&& final(self).timer == (CountdownTimer {
                        duration_ms: anim.nodes@[adv.1].duration_ms,
                        elapsed_ms: adv.2 as u64,
                    })
                    &&& final(self).summary == old(self).summary
                    &&& effects@ == jump + node_effs
                }
                &&& adv.0 ==> {
                    &&& final(self).phase == (Phase::PostWait { scenario })
                    &&& final(self).timer == (CountdownTimer {
                        duration_ms: POST_ANIMATION_WAIT_MS,
                        elapsed_ms: 0,
                    })
                    &&& final(self).summary == (match sc.summary_action {
                        Some(act) => spec_apply_summary(
                            act,
                            old(self).lever is Pulled,
                            !(new_jumping is NotJumping),
                            old(self).summary,
                        ),
                        None => old(self).summary,
                    })
                    &&& effects@ == jump + node_effs + seq![
                        Effect::AnimationComplete { on_end: sc.on_end },
                    ]
                }
            }),
    {
        let mut effects: Vec<Effect> = Vec::new();
        proof {
            assert(self.scenarios@[scenario as int].wf());
            assert(self.scenarios@[scenario as int].animations@[animation as int].wf());
        }
        let on_update = self.scenarios[scenario].on_update;
        if on_update == Some(ScenarioUpdateAction::SelfUpdate) && self.jumping
            == SelfJumping::Jumping {
            self.jumping = SelfJumping::RunOver;
            effects.push(Effect::PlayerRunOver);
        }
        let elapsed = self.timer.elapsed_ms;
        let ghost before_adv = effects@;
        let (complete, new_node, new_elapsed) = advance_nodes(
            &self.scenarios[scenario].animations[animation],
            node,
            elapsed,
            delta_ms,
            &mut effects,
        );
        if complete {
            let act_opt = self.scenarios[scenario].summary_action;
            if let Some(act) = act_opt {
                proof {
                    assert(10 * spec_done(old(self).phase, old(self).scenarios@.len() as int)
                        <= 10 * MAX_SCENARIOS);
                }
                apply_summary_action(&mut self.summary, act, self.lever, self.jumping);
            }
            self.timer = CountdownTimer::new(POST_ANIMATION_WAIT_MS);
            self.phase = Phase::PostWait { scenario };
            effects.push(Effect::AnimationComplete { on_end: self.scenarios[scenario].on_end });
        } else {
            let dur = self.scenarios[scenario].animations[animation].nodes[new_node].duration_ms;
            self.timer = CountdownTimer { duration_ms: dur, elapsed_ms: new_elapsed };
            self.phase = Phase::Animating { scenario, animation, node: new_node };
        }
        effects
    }

    /// One post-animation-wait tick: the wait expiring leaves the finished
    /// scenario and enters the next one, or ends the game after the last.
    #[verifier::rlimit(100)]
    fn tick_post_wait(&mut self, delta_ms: u64, scenario: usize) -> (effects: Vec<Effect>)
        requires
            old(self).wf(),
            old(self).phase == (Phase::PostWait { scenario }),
        ensures
            final(self).wf(),
            final(self).scenarios@ == old(self).scenarios@,
            final(self).music_pause == old(self).music_pause,
            final(self).summary == old(self).summary,
            ({
                let fired = old(self).timer.spec_fires(delta_ms);
                let t2 = old(self).timer.spec_tick(delta_ms);
                &&& !fired ==> {
                    &&& final(self).phase == old(self).phase
                    &&& final(self).lever == old(self).lever
                    &&& final(self).jumping == old(self).jumping
                    &&& final(self).timer == t2
                    &&& effects@ == Seq::<Effect>::empty()
                }
                &&& fired ==> {
                    &&& scenario + 1 < old(self).scenarios@.len() ==> {
                        &&& final(self).phase == (Phase::Countdown {
                            scenario: (scenario + 1) as usize,
                        })
                        &&& final(self).lever == LeverState::Normal
                        &&& final(self).jumping == SelfJumping::NotJumping
                        &&& final(self).timer == (CountdownTimer {
                            duration_ms: old(self).scenarios@[scenario + 1].duration_ms,
                            elapsed_ms: 0,
                        })
                        &&& effects@ == seq![Effect::ScenarioExited { scenario }] + old(
                            self,
                        ).spec_enter_effects(scenario + 1)
                    }
                    &&& scenario + 1 >= old(self).scenarios@.len() ==> {
                        &&& final(self).phase == Phase::End
                        &&& effects@ == seq![
                            Effect::ScenarioExited { scenario },
                            Effect::GameEnded,
                        ]
                    }
                }
            }),
    {
        let mut effects: Vec<Effect> = Vec::new();
        let fired = self.timer.tick(delta_ms);
        if fired {
            effects.push(Effect::ScenarioExited { scenario });
            if scenario + 1 < self.scenarios.len() {
                let next = scenario + 1;
                proof {
                    assert(self.scenarios@[next as int].wf());
                }
                self.lever = LeverState::Normal;
                self.jumping = SelfJumping::NotJumping;
                self.timer = CountdownTimer::new(self.scenarios[next].duration_ms);
                self.phase = Phase::Countdown { scenario: next };
                effects.push(Effect::ScenarioEntered {
                    scenario: next,
                    on_start: self.scenarios[next].on_start,
                });
                proof {
                    assert(effects@ =~= seq![Effect::ScenarioExited { scenario }] + old(
                        self,
                    ).spec_enter_effects(scenario as int + 1));
                }
            } else {
                self.phase = Phase::End;
                effects.push(Effect::GameEnded);
                proof {
                    assert(effects@ =~= seq![
                        Effect::ScenarioExited { scenario },
                        Effect::GameEnded,
                    ]);
                }
            }
        }
        effects
    }

    /// Advances the whole sequencer by one frame of `delta_ms` wall-clock
    /// milliseconds and returns the effects the host must perform, in
    /// order.  The countdown expiring selects and starts the animation the
    /// lever state picks; node ends are passed in order, dropping none,
    /// however large the delta; the animation completing accumulates the
    /// summary and starts the post-animation wait; the wait expiring enters
    /// the next scenario, or ends the game after the last.
    #[verifier::rlimit(100)]
    pub fn tick(&mut self, delta_ms: u64) -> (effects: Vec<Effect>)
        requires
            old(self).wf(),
        ensures
            final(self).wf(),
            final(self).scenarios@ == old(self).scenarios@,
            final(self).music_pause == old(self).spec_music_after(delta_ms),
            ({
                let music = old(self).spec_music_effects(delta_ms);
                match old(self).phase {
                    Phase::Menu => {
                        &&& final(self).phase == old(self).phase
                        &&& final(self).lever == old(self).lever
                        &&& final(self).timer == old(self).timer
                        &&& final(self).summary == old(self).summary
                        &&& final(self).jumping == old(self).jumping
                        &&& effects@ == music
                    },
                    Phase::End => {
                        &&& final(self).phase == old(self).phase
                        &&& final(self).lever == old(self).lever
                        &&& final(self).timer == old(self).timer
                        &&& final(self).summary == old(self).summary
                        &&& final(self).jumping == old(self).jumping
                        &&& effects@ == music
                    },
                    Phase::Countdown { scenario } => {
                        let sc = old(self).scenarios@[scenario as int];
                        let fired = old(self).timer.spec_fires(delta_ms);
                        let t2 = old(self).timer.spec_tick(delta_ms);
                        let prev_rem = old(self).timer.duration_ms - old(self).timer.elapsed_ms;
                        let cur_rem = t2.duration_ms - t2.elapsed_ms;
                        let overridden = sc.trolley_texture_override is Some;
                        let turning: Seq<Effect> = if !overridden && prev_rem
                            >= TROLLEY_TURNING_TIME_MS >= cur_rem {
                            seq![Effect::TrolleyTurning]
                        } else {
                            Seq::empty()
                        };
                        let side: Seq<Effect> = if !overridden && prev_rem >= TROLLEY_SIDE_TIME_MS
                            >= cur_rem {
                            seq![Effect::TrolleySideOn]
                        } else {
                            Seq::empty()
                        };
                        let base = music + seq![
                            Effect::TimerText { remaining_ms: cur_rem as u64 },
                        ] + turning + side;
                        &&& final(self).lever == old(self).lever
                        &&& final(self).summary == old(self).summary
                        &&& final(self).jumping == old(self).jumping
                        &&& !fired ==> final(self).phase == old(self).phase && final(self).timer
                            == t2 && effects@ == base
                        &&& fired ==> {
                            let a = spec_select(sc.animations@, old(self).lever)->0;
                            let anim = sc.animations@[a];
                            &&& spec_select(sc.animations@, old(self).lever) is Some
                            &&& final(self).phase == (Phase::Animating {
                                scenario,
                                animation: a as usize,
                                node: 0,
                            })
                            &&& final(self).timer == (CountdownTimer {
                                duration_ms: anim.nodes@[0].duration_ms,
                                elapsed_ms: 0,
                            })
                            &&& effects@ == base + seq![
                                Effect::AnimationStarted {
                                    animation: a as usize,
                                    start_action: anim.start_action,
                                },
                            ]
                        }
                    },
                    Phase::Animating { scenario, animation, node } => {
                        let sc = old(self).scenarios@[scenario as int];
                        let anim = sc.animations@[animation as int];
                        let run_over = sc.on_update == Some(ScenarioUpdateAction::SelfUpdate)
                            && old(self).jumping == SelfJumping::Jumping;
                        let jump: Seq<Effect> = if run_over {
                            seq![Effect::PlayerRunOver]
                        } else {
                            Seq::empty()
                        };
                        let new_jumping = if run_over {
                            SelfJumping::RunOver
                        } else {
                            old(self).jumping
                        };
                        let adv = spec_advance_nodes(
                            anim.nodes@,
                            node as int,
                            old(self).timer.elapsed_ms as int,
                            delta_ms as int,
                        );
                        let node_effs = spec_node_effects(anim.nodes@, adv.3);
                        &&& final(self).lever == old(self).lever
                        &&& final(self).jumping == new_jumping
                        &&& !adv.0 ==> {
                            &&& final(self).phase == (Phase::Animating {
                                scenario,
                                animation,
                                node: adv.1 as usize,
                            })
                            &&& final(self).timer == (CountdownTimer {
                                duration_ms: anim.nodes@[adv.1].duration_ms,
                                elapsed_ms: adv.2 as u64,
                            })
                            &&& final(self).summary == old(self).summary
                            &&& effects@ == music + jump + node_effs
                        }
                        &&& adv.0 ==> {
                            &&& final(self).phase == (Phase::PostWait { scenario })
                            &&& final(self).timer == (CountdownTimer {
                                duration_ms: POST_ANIMATION_WAIT_MS,
                                elapsed_ms: 0,
                            })
                            &&& final(self).summary == (match sc.summary_action {
                                Some(act) => spec_apply_summary(
                                    act,
                                    old(self).lever is Pulled,
                                    !(new_jumping is NotJumping),
                                    old(self).summary,
                                ),
                                None => old(self).summary,
                            })
                            &&& effects@ == music + jump + node_effs + seq![
                                Effect::AnimationComplete { on_end: sc.on_end },
                            ]
                        }
                    },
                    Phase::PostWait { scenario } => {
                        let fired = old(self).timer.spec_fires(delta_ms);
                        let t2 = old(self).timer.spec_tick(delta_ms);
                        &&& final(self).summary == old(self).summary
                        &&& !fired ==> {
                            &&& final(self).phase == old(self).phase
                            &&& final(self).lever == old(self).lever
                            &&& final(self).jumping == old(self).jumping
                            &&& final(self).timer == t2
                            &&& effects@ == music
                        }
                        &&& fired ==> {
                            &&& scenario + 1 < old(self).scenarios@.len() ==> {
                                &&& final(self).phase == (Phase::Countdown {
                                    scenario: (scenario + 1) as usize,
                                })
                                &&& final(self).lever == LeverState::Normal
                                &&& final(self).jumping == SelfJumping::NotJumping
                                &&& final(self).timer == (CountdownTimer {
                                    duration_ms: old(self).scenarios@[scenario + 1].duration_ms,
                                    elapsed_ms: 0,
                                })
                                &&& effects@ == music + seq![
                                    Effect::ScenarioExited { scenario },
                                ] + old(self).spec_enter_effects(scenario + 1)
                            }
                            &&& scenario + 1 >= old(self).scenarios@.len() ==> {
                                &&& final(self).phase == Phase::End
                                &&& effects@ == music + seq![
                                    Effect::ScenarioExited { scenario },
                                    Effect::GameEnded,
                                ]
                            }
                        }
                    },
                }
            }),
    {
        let mut effects: Vec<Effect> = Vec::new();
        if let Some(mut t) = self.music_pause {
            let fired = t.tick(delta_ms);
            if fired {
                self.music_pause = None;
                effects.push(Effect::ResumeMusic);
            } else {
                self.music_pause = Some(t);
            }
        }
        let ghost music = old(self).spec_music_effects(delta_ms);
        proof {
            assert(effects@ =~= music);
        }
        match self.phase {
            Phase::Menu => {},
            Phase::End => {},
            Phase::Countdown { scenario } => {
                let mut more = self.tick_countdown(delta_ms, scenario);
                let ghost m = more@;
                effects.append(&mut more);
                proof {
                    assert(effects@ =~= music + m);
                }
            },
            Phase::Animating { scenario, animation, node } => {
                let mut more = self.tick_animating(delta_ms, scenario, animation, node);
                let ghost m = more@;
                effects.append(&mut more);
                proof {
                    assert(effects@ =~= music + m);
                }
            },
            Phase::PostWait { scenario } => {
                let mut more = self.tick_post_wait(delta_ms, scenario);
                let ghost m = more@;
                effects.append(&mut more);
                proof {
                    assert(effects@ =~= music + m);
                }
            },
        }
        effects
    }
}

impl Sequencer {
    /// Handles a click at screen position (`x_mpx`, `y_mpx`), in thousandths
    /// of a pixel.  During a countdown, a click inside the lever
    /// hit-rectangle plays the switch sound and toggles the lever — pulling
    /// it only in scenarios that define switched textures — and, in the
    /// self-sacrifice scenario, any click makes the player jump.  Clicks in
    /// any other phase do nothing.
    #[verifier::rlimit(100)]
    pub fn handle_click(&mut self, x_mpx: i64, y_mpx: i64) -> (effects: Vec<Effect>)
        requires
            old(self).wf(),
        ensures
            final(self).wf(),
            final(self).scenarios@ == old(self).scenarios@,
            final(self).phase == old(self).phase,
            final(self).timer == old(self).timer,
            final(self).summary == old(self).summary,
            final(self).music_pause == old(self).music_pause,
            ({
                match old(self).phase {
                    Phase::Countdown { scenario } => {
                        let sc = old(self).scenarios@[scenario as int];
                        let in_rect = LEVER_RECT_MIN_X_MPX <= x_mpx <= LEVER_RECT_MAX_X_MPX
                            && LEVER_RECT_MIN_Y_MPX <= y_mpx <= LEVER_RECT_MAX_Y_MPX;
                        let can_switch = sc.tracks_switched_texture is Some
                            && sc.lever_switched_texture is Some;
                        let toggles = in_rect && (old(self).lever is Pulled || can_switch);
                        let new_lever = if !toggles {
                            old(self).lever
                        } else if old(self).lever is Pulled {
                            LeverState::Normal
                        } else {
                            LeverState::Pulled
                        };
                        let lever_effs: Seq<Effect> = if !in_rect {
                            Seq::empty()
                        } else if toggles {
                            seq![
                                Effect::PlaySwitchSound,
                                Effect::LeverChanged { pulled: new_lever is Pulled },
                            ]
                        } else {
                            seq![Effect::PlaySwitchSound]
                        };
                        let jumps = sc.on_update == Some(ScenarioUpdateAction::SelfUpdate);
                        let jump_effs: Seq<Effect> = if jumps && old(self).jumping
                            == SelfJumping::NotJumping {
                            seq![Effect::PlayerJumped]
                        } else {
                            Seq::empty()
                        };
                        &&& final(self).lever == new_lever
                        &&& final(self).jumping == (if jumps {
                            SelfJumping::Jumping
                        } else {
                            old(self).jumping
                        })
                        &&& effects@ == lever_effs + jump_effs
                    },
                    _ => {
                        &&& final(self).lever == old(self).lever
                        &&& final(self).jumping == old(self).jumping
                        &&& effects@ == Seq::<Effect>::empty()
                    },
                }
            }),
    {
        let mut effects: Vec<Effect> = Vec::new();
        if let Phase::Countdown { scenario } = self.phase {
            proof {
                assert(self.scenarios@[scenario as int].wf());
            }
            let in_rect = LEVER_RECT_MIN_X_MPX <= x_mpx && x_mpx <= LEVER_RECT_MAX_X_MPX
                && LEVER_RECT_MIN_Y_MPX <= y_mpx && y_mpx <= LEVER_RECT_MAX_Y_MPX;
            if in_rect {
                effects.push(Effect::PlaySwitchSound);
                match self.lever {
                    LeverState::Pulled => {
                        self.lever = LeverState::Normal;
                        effects.push(Effect::LeverChanged { pulled: false });
                    },
                    LeverState::Normal => {
                        let can_switch = self.scenarios[scenario].tracks_switched_texture.is_some()
                            && self.scenarios[scenario].lever_switched_texture.is_some();
                        if can_switch {
                            self.lever = LeverState::Pulled;
                            effects.push(Effect::LeverChanged { pulled: true });
                        }
                    },
                }
            }
            let jumps = self.scenarios[scenario].on_update
                == Some(ScenarioUpdateAction::SelfUpdate);
            if jumps {
                if self.jumping == SelfJumping::NotJumping {
                    effects.push(Effect::PlayerJumped);
                }
                self.jumping = SelfJumping::Jumping;
            }
        }
        effects
    }

    /// The overall game state the machine stands in.
    pub fn game_state(&self) -> (r: GameState)
        ensures
            r == self.phase.spec_game_state(),
    {
        self.phase.game_state()
    }

    /// A read-only view of the running summary.
    pub fn summary(&self) -> (r: &GameSummary)
        ensures
            r == self.summary,
    {
        &self.summary
    }

    /// The trolley pose during the current animation node, computed from
    /// the time elapsed in it: exactly the interpolation the node's
    /// animation function defines, with the translation normalized to the
    /// canvas — the same frame the countdown pose and the spawn plan use,
    /// so the host writes it to the sprite unchanged.
    pub fn animation_trolley_transform(&self) -> (r: Transform2)
        requires
            self.wf(),
            self.phase matches Phase::Animating { .. },
        ensures
            ({
                let (scenario, animation, node) = match self.phase {
                    Phase::Animating { scenario, animation, node } => (
                        scenario as int,
                        animation as int,
                        node as int,
                    ),
                    _ => (0int, 0int, 0int),
                };
                let anim = self.scenarios@[scenario].animations@[animation];
                let nd = anim.nodes@[node];
                let from = anim.spec_from_transform(node);
                match nd.animation_fn {
                    crate::animation::AnimationFn::Linear => {
                        let p = crate::transform::spec_linear_animation(
                            from,
                            nd.transform,
                            self.timer.elapsed_ms as int,
                            nd.duration_ms as int,
                        );
                        &&& r.x == crate::util::spec_normalize_x(p.x as int)
                        &&& r.y == crate::util::spec_normalize_y(p.y as int)
                        &&& r.rot_mdeg == p.rot_mdeg
                        &&& r.scale_milli == p.scale_milli
                    },
                    crate::animation::AnimationFn::Loop => {
                        &&& r.x == crate::util::spec_normalize_x(
                            from.x + crate::transform::spec_loop_offset_x(
                                self.timer.elapsed_ms as int,
                                nd.duration_ms as int,
                            ),
                        )
                        &&& r.y == crate::util::spec_normalize_y(
                            from.y + crate::transform::spec_loop_offset_y(
                                self.timer.elapsed_ms as int,
                                nd.duration_ms as int,
                            ),
                        )
                        &&& r.rot_mdeg == crate::transform::spec_loop_rotation(
                            self.timer.elapsed_ms as int,
                            nd.duration_ms as int,
                        )
                        &&& r.scale_milli == crate::transform::SCALE_ONE_MILLI
                    },
                }
            }),
    {
        match self.phase {
            Phase::Animating { scenario, animation, node } => {
                proof {
                    assert(self.scenarios@[scenario as int].wf());
                    assert(self.scenarios@[scenario as int].animations@[animation as int].wf());
                }
                let pose = self.scenarios[scenario].animations[animation].sample(
                    node,
                    self.timer.elapsed_ms,
                );
                let (nx, ny) = crate::util::normalize_translation_to_canvas(pose.x, pose.y);
                Transform2 { x: nx, y: ny, rot_mdeg: pose.rot_mdeg, scale_milli: pose.scale_milli }
            },
            _ => Transform2::identity(),
        }
    }

    /// The approaching trolley's pose during the countdown: the horizon
    /// approach until three seconds remain, then the turning leg, then the
    /// side-on leg, each handing off exactly where the next begins.
    pub fn countdown_trolley_transform(&self) -> (r: Transform2)
        requires
            self.wf(),
            self.phase matches Phase::Countdown { .. },
        ensures
            ({
                let remaining = self.timer.duration_ms - self.timer.elapsed_ms;
                &&& remaining > TROLLEY_TURNING_TIME_MS ==> r
                    == crate::util::spec_horizon_distance_transform(
                    APPROACHING_TROLLEY_HORIZON_POINT_X_MPX as int,
                    APPROACHING_TROLLEY_HORIZON_POINT_Y_MPX as int,
                    crate::constants::spec_approaching_trolley_horizon_end_transform(),
                    remaining - TROLLEY_TURNING_TIME_MS,
                )
                &&& TROLLEY_SIDE_TIME_MS < remaining <= TROLLEY_TURNING_TIME_MS ==> r
                    == crate::util::spec_movement_transform(
                    crate::constants::spec_approaching_trolley_horizon_end_transform(),
                    crate::constants::spec_approaching_trolley_turning_end_transform(),
                    TROLLEY_TURNING_TIME_MS - TROLLEY_SIDE_TIME_MS,
                    remaining - TROLLEY_SIDE_TIME_MS,
                )
                &&& remaining <= TROLLEY_SIDE_TIME_MS ==> r
                    == crate::util::spec_movement_transform(
                    crate::constants::spec_approaching_trolley_turning_end_transform(),
                    crate::constants::spec_approaching_trolley_side_end_transform(),
                    TROLLEY_SIDE_TIME_MS as int,
                    remaining as int,
                )
            }),
    {
        let remaining = self.timer.remaining_ms();
        proof {
            match self.phase {
                Phase::Countdown { scenario } => {
                    assert(self.scenarios@[scenario as int].wf());
                },
                _ => {},
            }
        }
        if remaining > TROLLEY_TURNING_TIME_MS {
            crate::util::horizon_distance_transform(
                APPROACHING_TROLLEY_HORIZON_POINT_X_MPX,
                APPROACHING_TROLLEY_HORIZON_POINT_Y_MPX,
                crate::constants::approaching_trolley_horizon_end_transform(),
                remaining - TROLLEY_TURNING_TIME_MS,
            )
        } else if remaining > TROLLEY_SIDE_TIME_MS {
            crate::util::movement_transform(
                crate::constants::approaching_trolley_horizon_end_transform(),
                crate::constants::approaching_trolley_turning_end_transform(),
                TROLLEY_TURNING_TIME_MS - TROLLEY_SIDE_TIME_MS,
                remaining - TROLLEY_SIDE_TIME_MS,
            )
        } else {
            crate::util::movement_transform(
                crate::constants::approaching_trolley_turning_end_transform(),
                crate::constants::approaching_trolley_side_end_transform(),
                TROLLEY_SIDE_TIME_MS,
                remaining,
            )
        }
    }
}

/// Every node duration is positive, so progress through each node is well
/// defined.
pub open spec fn spec_nodes_durations_positive(nodes: Seq<AnimationNode>) -> bool {
    forall|i: int| 0 <= i < nodes.len() ==> 0 < (#[trigger] nodes[i]).duration_ms
}

/// The node-end events of a whole run: each tick's delta is fed to the
/// animation in turn, until it completes.
pub open spec fn spec_run_node_events(
    nodes: Seq<AnimationNode>,
    node: int,
    elapsed: int,
    deltas: Seq<u64>,
) -> Seq<int>
    decreases deltas.len(),
{
    if deltas.len() == 0 {
        Seq::empty()
    } else {
        let adv = spec_advance_nodes(nodes, node, elapsed, deltas[0] as int);
        if adv.0 {
            adv.3
        } else {
            adv.3 + spec_run_node_events(nodes, adv.1, adv.2, deltas.skip(1))
        }
    }
}

/// The total play time left in the animation, standing at `node` with
/// `elapsed` time into it.
pub open spec fn spec_nodes_time_left(nodes: Seq<AnimationNode>, node: int, elapsed: int) -> int
    decreases nodes.len() - node,
{
    if node < 0 || node >= nodes.len() {
        0
    } else {
        nodes[node].duration_ms - elapsed + spec_nodes_time_left(nodes, node + 1, 0)
    }
}

/// The consecutive indices from `lo` inclusive to `hi` exclusive.
pub open spec fn spec_index_range(lo: int, hi: int) -> Seq<int> {
    Seq::new((hi - lo) as nat, |i: int| lo + i)
}

/// Adjacent index ranges concatenate.
proof fn lemma_index_range_concat(a: int, b: int, c: int)
    requires
        a <= b <= c,
    ensures
        spec_index_range(a, b) + spec_index_range(b, c) == spec_index_range(a, c),
{
    assert(spec_index_range(a, b) + spec_index_range(b, c) =~= spec_index_range(a, c));
}

/// The remaining play time is never negative, and positive while a node is
/// still in progress.
proof fn lemma_nodes_time_left_bounds(nodes: Seq<AnimationNode>, node: int, elapsed: int)
    requires
        spec_nodes_durations_positive(nodes),
    ensures
        0 <= node < nodes.len() && elapsed <= nodes[node].duration_ms
            ==> spec_nodes_time_left(nodes, node, elapsed) >= nodes[node].duration_ms - elapsed,
        node >= nodes.len() ==> spec_nodes_time_left(nodes, node, elapsed) == 0,
    decreases nodes.len() - node,
{
    if 0 <= node < nodes.len() {
        lemma_nodes_time_left_bounds(nodes, node + 1, 0);
    }
}

/// What one advance does: the nodes it passes are exactly the consecutive
/// ones from the current node, and the remaining play time falls by
/// exactly the delta until the animation completes.
proof fn lemma_advance_nodes_range(
    nodes: Seq<AnimationNode>,
    node: int,
    elapsed: int,
    delta: int,
)
    requires
        spec_nodes_durations_positive(nodes),
        0 <= node < nodes.len(),
        0 <= elapsed < nodes[node].duration_ms,
        0 <= delta,
    ensures
        ({
            let adv = spec_advance_nodes(nodes, node, elapsed, delta);
            &&& adv.0 ==> adv.3 == spec_index_range(node, nodes.len() as int) && delta
                >= spec_nodes_time_left(nodes, node, elapsed)
            &&& !adv.0 ==> {
                &&& adv.3 == spec_index_range(node, adv.1)
                &&& node <= adv.1 < nodes.len()
                &&& 0 <= adv.2 < nodes[adv.1].duration_ms
                &&& spec_nodes_time_left(nodes, adv.1, adv.2) == spec_nodes_time_left(
                    nodes,
                    node,
                    elapsed,
                ) - delta
            }
        }),
    decreases nodes.len() - node,
{
    let adv = spec_advance_nodes(nodes, node, elapsed, delta);
    if elapsed + delta < nodes[node].duration_ms {
        assert(adv.3 =~= spec_index_range(node, node));
    } else if node + 1 == nodes.len() {
        assert(adv.3 =~= spec_index_range(node, nodes.len() as int));
        lemma_nodes_time_left_bounds(nodes, node + 1, 0);
    } else {
        let leftover = delta - (nodes[node].duration_ms - elapsed);
        lemma_advance_nodes_range(nodes, node + 1, 0, leftover);
        let rest = spec_advance_nodes(nodes, node + 1, 0, leftover);
        if rest.0 {
            lemma_index_range_concat(node, node + 1, nodes.len() as int);
            assert(seq![node] =~= spec_index_range(node, node + 1));
            assert(adv.3 =~= spec_index_range(node, node + 1) + spec_index_range(
                node + 1,
                nodes.len() as int,
            ));
        } else {
            lemma_index_range_concat(node, node + 1, rest.1);
            assert(seq![node] =~= spec_index_range(node, node + 1));
            assert(adv.3 =~= spec_index_range(node, node + 1) + spec_index_range(
                node + 1,
                rest.1,
            ));
        }
    }
}

/// Node sequencing is exact whatever the frame rate: however the play time
/// is split into per-tick deltas, once the deltas together cover the
/// animation's remaining play time, the node-end events of the whole run
/// are exactly the node indices from the current one through the last, in
/// order — one event per node, none skipped and none repeated, even when a
/// single tick's delta spans several whole nodes.
pub proof fn lemma_node_sequencing(
    nodes: Seq<AnimationNode>,
    node: int,
    elapsed: int,
    deltas: Seq<u64>,
)
    requires
        spec_nodes_durations_positive(nodes),
        0 <= node < nodes.len(),
        0 <= elapsed < nodes[node].duration_ms,
        crate::timer::delta_sum(deltas) >= spec_nodes_time_left(nodes, node, elapsed),
    ensures
        spec_run_node_events(nodes, node, elapsed, deltas) == spec_index_range(
            node,
            nodes.len() as int,
        ),
    decreases deltas.len(),
{
    lemma_nodes_time_left_bounds(nodes, node, elapsed);
    if deltas.len() == 0 {
        assert(spec_nodes_time_left(nodes, node, elapsed) > 0);
        assert(false);
    } else {
        lemma_advance_nodes_range(nodes, node, elapsed, deltas[0] as int);
        let adv = spec_advance_nodes(nodes, node, elapsed, deltas[0] as int);
        if !adv.0 {
            lemma_node_sequencing(nodes, adv.1, adv.2, deltas.skip(1));
            lemma_index_range_concat(node, adv.1, nodes.len() as int);
        }
    }
}

} // verus!
