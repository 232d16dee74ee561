//! Game states.

use vstd::prelude::*;

verus! {

/// The overall state of the game.
#[derive(Clone, Copy, Debug, PartialEq, Eq, Structural)]
pub enum GameState {
    /// The player is in the menu screen.
    InMenu,
    /// The player is playing the game scenarios.
    Playing,
    /// The player is at the end screen.
    EndScreen,
}

/// The state of the lever.
#[derive(Clone, Copy, Debug, PartialEq, Eq, Structural)]
pub enum LeverState {
    /// The lever has not been pulled.
    Normal,
    /// The lever has been pulled.
    Pulled,
}

impl LeverState {
    /// Returns whether the lever state is pulled.
    pub fn pulled(&self) -> (r: bool)
        ensures
            r == (*self is Pulled),
    {
        matches!(self, LeverState::Pulled)
    }
}

/// The state of a scheduled animation.
#[derive(Clone, Copy, Debug, PartialEq, Eq, Structural)]
pub enum AnimationState {
    /// Waiting to start the animation.
    Waiting,
    /// The animation is running.
    Running,
    /// The animation has completed.
    Complete,
}

/// Whether the player has jumped onto the track in the self-sacrifice
/// scenario.
#[derive(Clone, Copy, Debug, PartialEq, Eq, Structural)]
pub enum SelfJumping {
    /// The player has not jumped.
    NotJumping,
    /// The player has jumped.
    Jumping,
    /// The player has been run over.
    RunOver,
}

impl SelfJumping {
    /// Returns whether the player jumped onto the tracks.
    pub fn jumped(&self) -> (r: bool)
        ensures
            r == !(*self is NotJumping),
    {
        !matches!(self, SelfJumping::NotJumping)
    }
}

/// Where the sequencer stands: one composite state in place of separate
/// nullable slots for the phase and the scenario, animation and node indices,
/// so that no invalid combination of them can be represented.
#[derive(Clone, Copy, Debug, PartialEq, Eq, Structural)]
pub enum Phase {
    /// The menu screen is up.
    Menu,
    /// A scenario's countdown is running and the lever can be toggled.
    Countdown {
        /// The index of the active scenario.
        scenario: usize,
    },
    /// The selected animation of a scenario is playing one of its nodes.
    Animating {
        /// The index of the active scenario.
        scenario: usize,
        /// The index of the animation selected at countdown expiry.
        animation: usize,
        /// The index of the node currently playing.
        node: usize,
    },
    /// The animation has completed; a short pause runs before the next
    /// scenario.
    PostWait {
        /// The index of the scenario that just finished.
        scenario: usize,
    },
    /// The end screen with the summary is up.
    End,
}

impl Phase {
    /// The overall game state this phase belongs to.
    pub open spec fn spec_game_state(self) -> GameState {
        match self {
            Phase::Menu => GameState::InMenu,
            Phase::End => GameState::EndScreen,
            _ => GameState::Playing,
        }
    }

    /// The overall game state this phase belongs to.
    pub fn game_state(&self) -> (r: GameState)
        ensures
            r == self.spec_game_state(),
    {
        match self {
            Phase::Menu => GameState::InMenu,
            Phase::End => GameState::EndScreen,
            _ => GameState::Playing,
        }
    }

    /// The animation sub-state this phase corresponds to.
    pub open spec fn spec_animation_state(self) -> AnimationState {
        match self {
            Phase::Animating { .. } => AnimationState::Running,
            Phase::PostWait { .. } => AnimationState::Complete,
            _ => AnimationState::Waiting,
        }
    }

    /// The animation sub-state this phase corresponds to.
    pub fn animation_state(&self) -> (r: AnimationState)
        ensures
            r == self.spec_animation_state(),
    {
        match self {
            Phase::Animating { .. } => AnimationState::Running,
            Phase::PostWait { .. } => AnimationState::Complete,
            _ => AnimationState::Waiting,
        }
    }
}

} // verus!
