//! The running summary of outcomes, and the per-scenario reducers that
//! accumulate into it when a scenario's consequence animation completes.

use vstd::prelude::*;
use crate::states::LeverState;

verus! {

/// The summary of the game in progress.
#[derive(Clone, Copy, Debug, PartialEq, Eq, Structural)]
pub struct GameSummary {
    /// Total number of people killed.
    pub people_killed: usize,
    /// Total number of people saved.
    pub people_saved: usize,
    /// Whether Hitler was killed.
    pub killed_hitler: bool,
    /// Whether the player got the cool hat.
    pub got_cool_hat: bool,
    /// Whether the player caused a preventable tragedy.
    pub caused_preventable_tragedy: bool,
    /// Whether the player enforced Darwinism.
    pub enforced_darwinism: bool,
    /// Whether the player made the trolley do a sick loop-da-loop.
    pub did_sick_loop: bool,
    /// Total number of lobsters killed.
    pub lobsters_killed: usize,
    /// Total number of lobsters saved.
    pub lobsters_saved: usize,
    /// Whether the player returned the shopping cart.
    pub returned_shopping_cart: bool,
    /// Whether the player doubled it and gave it to the next person.
    pub doubled_it: bool,
    /// Whether the player watched Thomas the tank engine kill people.
    pub watched_thomas_kill_people: bool,
    /// Whether the player contributed to the viral YouTube prank.
    pub did_viral_prank: bool,
    /// Whether the player killed themself.
    pub killed_self: bool,
    /// Whether the player solved philosophy.
    pub solved_philosophy: bool,
}

impl GameSummary {
    /// Create a new game summary with default values.
    pub fn new() -> (r: GameSummary)
        ensures
            r == GameSummary::spec_new(),
    {
        GameSummary {
            people_killed: 0,
            people_saved: 0,
            killed_hitler: false,
            got_cool_hat: false,
            caused_preventable_tragedy: false,
            enforced_darwinism: false,
            did_sick_loop: false,
            lobsters_killed: 0,
            lobsters_saved: 0,
            returned_shopping_cart: false,
            doubled_it: false,
            watched_thomas_kill_people: false,
            killed_self: false,
            did_viral_prank: false,
            solved_philosophy: true,
        }
    }

    /// The initial summary: every counter zero and every flag clear, except
    /// that the player is always credited with solving philosophy.
    pub open spec fn spec_new() -> GameSummary {
        GameSummary {
            people_killed: 0,
            people_saved: 0,
            killed_hitler: false,
            got_cool_hat: false,
            caused_preventable_tragedy: false,
            enforced_darwinism: false,
            did_sick_loop: false,
            lobsters_killed: 0,
            lobsters_saved: 0,
            returned_shopping_cart: false,
            doubled_it: false,
            watched_thomas_kill_people: false,
            killed_self: false,
            did_viral_prank: false,
            solved_philosophy: true,
        }
    }

    /// Every counter has headroom for the largest single-scenario increment,
    /// so the reducers below cannot overflow.
    pub open spec fn headroom(self) -> bool {
        &&& self.people_killed + 10 <= usize::MAX
        &&& self.people_saved + 10 <= usize::MAX
        &&& self.lobsters_killed + 5 <= usize::MAX
        &&& self.lobsters_saved + 5 <= usize::MAX
    }
}

/// The reducer to run at the end of each scenario, as a tagged variant: each
/// one takes the final lever state (or, for the self-sacrifice scenario,
/// whether the player jumped) and accumulates that scenario's outcome.
#[derive(Clone, Copy, Debug, PartialEq, Eq, Structural)]
pub enum SummaryAction {
    /// The original five-against-one dilemma.
    Original,
    /// Ninety-year-olds against a child.
    Age,
    /// The clone of Hitler.
    CloneDilemma,
    /// Hitler riding the trolley toward a cliff.
    Cliff,
    /// The guy with the really cool hat.
    CoolHat,
    /// The self-declared victim on the track.
    Victim,
    /// Natural selection applied to untied pedestrians.
    Darwinism,
    /// The totally sick loop-da-loop.
    LoopTheLoop,
    /// Five philosophy professors.
    Professors,
    /// Divert the trolley after it has already run people over.
    LoanForgiveness,
    /// Five innocent lobsters.
    Lobster,
    /// The duty to return the shopping cart.
    ShoppingCart,
    /// A born lever-puller with nobody in danger.
    BornLeverPuller,
    /// Double it and give it to the next person.
    DoubleIt,
    /// Thomas the Tank Engine with a single track.
    ThomasTheTankEngine,
    /// The viral YouTube prank.
    YoutubePrank,
    /// Jumping in front of the trolley yourself.
    SelfSacrifice,
}

/// The summary after running one reducer.  `pulled` is the lever state when
/// the countdown expired and `jumped` is the self-sacrifice scenario's
/// terminal signal; every action reads at most one of the two.
pub open spec fn spec_apply_summary(
    action: SummaryAction,
    pulled: bool,
    jumped: bool,
    s: GameSummary,
) -> GameSummary {
    match action {
        SummaryAction::Original => if pulled {
            GameSummary {
                people_killed: (s.people_killed + 1) as usize,
                people_saved: (s.people_saved + 5) as usize,
                ..s
            }
        } else {
            GameSummary {
                people_killed: (s.people_killed + 5) as usize,
                people_saved: (s.people_saved + 1) as usize,
                ..s
            }
        },
        SummaryAction::Age => if pulled {
            GameSummary {
                people_killed: (s.people_killed + 1) as usize,
                people_saved: (s.people_saved + 10) as usize,
                ..s
            }
        } else {
            GameSummary {
                people_killed: (s.people_killed + 10) as usize,
                people_saved: (s.people_saved + 1) as usize,
                ..s
            }
        },
        SummaryAction::CloneDilemma => if pulled {
            GameSummary {
                people_killed: (s.people_killed + 1) as usize,
                killed_hitler: true,
                ..s
            }
        } else {
            GameSummary { people_saved: (s.people_saved + 1) as usize, ..s }
        },
        SummaryAction::Cliff => if pulled {
            GameSummary { people_saved: (s.people_saved + 6) as usize, ..s }
        } else {
            GameSummary {
                people_killed: (s.people_killed + 6) as usize,
                killed_hitler: true,
                ..s
            }
        },
        SummaryAction::CoolHat => if pulled {
            GameSummary {
                people_killed: (s.people_killed + 1) as usize,
                people_saved: (s.people_saved + 5) as usize,
                ..s
            }
        } else {
            GameSummary {
                people_killed: (s.people_killed + 5) as usize,
                people_saved: (s.people_saved + 1) as usize,
                got_cool_hat: true,
                ..s
            }
        },
        SummaryAction::Victim => if pulled {
            GameSummary { people_saved: (s.people_saved + 1) as usize, ..s }
        } else {
            GameSummary {
                people_killed: (s.people_killed + 1) as usize,
                caused_preventable_tragedy: true,
                ..s
            }
        },
        SummaryAction::Darwinism => if pulled {
            GameSummary {
                people_killed: (s.people_killed + 5) as usize,
                people_saved: (s.people_saved + 1) as usize,
                enforced_darwinism: true,
                ..s
            }
        } else {
            GameSummary {
                people_killed: (s.people_killed + 1) as usize,
                people_saved: (s.people_saved + 5) as usize,
                ..s
            }
        },
        SummaryAction::LoopTheLoop => if pulled {
            GameSummary {
                people_killed: (s.people_killed + 1) as usize,
                people_saved: (s.people_saved + 5) as usize,
                ..s
            }
        } else {
            GameSummary {
                people_killed: (s.people_killed + 5) as usize,
                people_saved: (s.people_saved + 1) as usize,
                did_sick_loop: true,
                ..s
            }
        },
        SummaryAction::Professors => if pulled {
            GameSummary {
                people_killed: (s.people_killed + 1) as usize,
                people_saved: (s.people_saved + 5) as usize,
                ..s
            }
        } else {
            GameSummary {
                people_killed: (s.people_killed + 5) as usize,
                people_saved: (s.people_saved + 1) as usize,
                ..s
            }
        },
        SummaryAction::LoanForgiveness => if pulled {
            GameSummary { people_saved: (s.people_saved + 5) as usize, ..s }
        } else {
            GameSummary {
                people_killed: (s.people_killed + 5) as usize,
                caused_preventable_tragedy: true,
                ..s
            }
        },
        SummaryAction::Lobster => if pulled {
            GameSummary {
                people_killed: (s.people_killed + 1) as usize,
                lobsters_saved: (s.lobsters_saved + 5) as usize,
                ..s
            }
        } else {
            GameSummary {
                people_saved: (s.people_saved + 1) as usize,
                lobsters_killed: (s.lobsters_killed + 5) as usize,
                ..s
            }
        },
        SummaryAction::ShoppingCart => if pulled {
            GameSummary { returned_shopping_cart: true, ..s }
        } else {
            s
        },
        SummaryAction::BornLeverPuller => if pulled {
            GameSummary {
                people_killed: (s.people_killed + 1) as usize,
                caused_preventable_tragedy: true,
                ..s
            }
        } else {
            GameSummary { people_saved: (s.people_saved + 1) as usize, ..s }
        },
        SummaryAction::DoubleIt => if pulled {
            GameSummary { people_killed: (s.people_killed + 1) as usize, ..s }
        } else {
            GameSummary {
                people_saved: (s.people_saved + 1) as usize,
                doubled_it: true,
                ..s
            }
        },
        SummaryAction::ThomasTheTankEngine => GameSummary {
            people_killed: (s.people_killed + 5) as usize,
            watched_thomas_kill_people: true,
            ..s
        },
        SummaryAction::YoutubePrank => if pulled {
            GameSummary {
                people_saved: (s.people_saved + 5) as usize,
                did_viral_prank: true,
                ..s
            }
        } else {
            GameSummary { people_killed: (s.people_killed + 5) as usize, ..s }
        },
        SummaryAction::SelfSacrifice => if jumped {
            GameSummary {
                people_killed: (s.people_killed + 1) as usize,
                killed_self: true,
                ..s
            }
        } else {
            GameSummary { people_saved: (s.people_saved + 1) as usize, ..s }
        },
    }
}

/// Updates the game summary at the end of the original scenario.
pub fn update_summary_original(summary: &mut GameSummary, lever: LeverState)
    requires
        old(summary).headroom(),
    ensures
        *final(summary) == spec_apply_summary(
            SummaryAction::Original,
            lever is Pulled,
            false,
            *old(summary),
        ),
{
    if lever.pulled() {
        summary.people_killed = summary.people_killed + 1;
        summary.people_saved = summary.people_saved + 5;
    } else {
        summary.people_killed = summary.people_killed + 5;
        summary.people_saved = summary.people_saved + 1;
    }
}

/// Updates the game summary at the end of the age scenario.
pub fn update_summary_age(summary: &mut GameSummary, lever: LeverState)
    requires
        old(summary).headroom(),
    ensures
        *final(summary) == spec_apply_summary(
            SummaryAction::Age,
            lever is Pulled,
            false,
            *old(summary),
        ),
{
    if lever.pulled() {
        summary.people_killed = summary.people_killed + 1;
        summary.people_saved = summary.people_saved + 10;
    } else {
        summary.people_killed = summary.people_killed + 10;
        summary.people_saved = summary.people_saved + 1;
    }
}

/// Updates the game summary at the end of the clone scenario.
pub fn update_summary_clone(summary: &mut GameSummary, lever: LeverState)
    requires
        old(summary).headroom(),
    ensures
        *final(summary) == spec_apply_summary(
            SummaryAction::CloneDilemma,
            lever is Pulled,
            false,
            *old(summary),
        ),
{
    if lever.pulled() {
        summary.people_killed = summary.people_killed + 1;
        summary.killed_hitler = true;
    } else {
        summary.people_saved = summary.people_saved + 1;
    }
}

/// Updates the game summary at the end of the cliff scenario.
pub fn update_summary_cliff(summary: &mut GameSummary, lever: LeverState)
    requires
        old(summary).headroom(),
    ensures
        *final(summary) == spec_apply_summary(
            SummaryAction::Cliff,
            lever is Pulled,
            false,
            *old(summary),
        ),
{
    if lever.pulled() {
        summary.people_saved = summary.people_saved + 6;
    } else {
        summary.people_killed = summary.people_killed + 6;
        summary.killed_hitler = true;
    }
}

/// Updates the game summary at the end of the cool hat scenario.
pub fn update_summary_cool_hat(summary: &mut GameSummary, lever: LeverState)
    requires
        old(summary).headroom(),
    ensures
        *final(summary) == spec_apply_summary(
            SummaryAction::CoolHat,
            lever is Pulled,
            false,
            *old(summary),
        ),
{
    if lever.pulled() {
        summary.people_killed = summary.people_killed + 1;
        summary.people_saved = summary.people_saved + 5;
    } else {
        summary.people_killed = summary.people_killed + 5;
        summary.people_saved = summary.people_saved + 1;
        summary.got_cool_hat = true;
    }
}

/// Updates the game summary at the end of the victim scenario.
pub fn update_summary_victim(summary: &mut GameSummary, lever: LeverState)
    requires
        old(summary).headroom(),
    ensures
        *final(summary) == spec_apply_summary(
            SummaryAction::Victim,
            lever is Pulled,
            false,
            *old(summary),
        ),
{
    if lever.pulled() {
        summary.people_saved = summary.people_saved + 1;
    } else {
        summary.people_killed = summary.people_killed + 1;
        summary.caused_preventable_tragedy = true;
    }
}

/// Updates the game summary at the end of the Darwinism scenario.
pub fn update_summary_darwinism(summary: &mut GameSummary, lever: LeverState)
    requires
        old(summary).headroom(),
    ensures
        *final(summary) == spec_apply_summary(
            SummaryAction::Darwinism,
            lever is Pulled,
            false,
            *old(summary),
        ),
{
    if lever.pulled() {
        summary.people_killed = summary.people_killed + 5;
        summary.people_saved = summary.people_saved + 1;
        summary.enforced_darwinism = true;
    } else {
        summary.people_killed = summary.people_killed + 1;
        summary.people_saved = summary.people_saved + 5;
    }
}

/// Updates the game summary at the end of the loop scenario.
pub fn update_summary_loop(summary: &mut GameSummary, lever: LeverState)
    requires
        old(summary).headroom(),
    ensures
        *final(summary) == spec_apply_summary(
            SummaryAction::LoopTheLoop,
            lever is Pulled,
            false,
            *old(summary),
        ),
{
    if lever.pulled() {
        summary.people_killed = summary.people_killed + 1;
        summary.people_saved = summary.people_saved + 5;
    } else {
        summary.people_killed = summary.people_killed + 5;
        summary.people_saved = summary.people_saved + 1;
        summary.did_sick_loop = true;
    }
}

/// Updates the game summary at the end of the professors scenario.
pub fn update_summary_professors(summary: &mut GameSummary, lever: LeverState)
    requires
        old(summary).headroom(),
    ensures
        *final(summary) == spec_apply_summary(
            SummaryAction::Professors,
            lever is Pulled,
            false,
            *old(summary),
        ),
{
    if lever.pulled() {
        summary.people_killed = summary.people_killed + 1;
        summary.people_saved = summary.people_saved + 5;
    } else {
        summary.people_killed = summary.people_killed + 5;
        summary.people_saved = summary.people_saved + 1;
    }
}

/// Updates the game summary at the end of the loan forgiveness scenario.
pub fn update_summary_loan_forgiveness(summary: &mut GameSummary, lever: LeverState)
    requires
        old(summary).headroom(),
    ensures
        *final(summary) == spec_apply_summary(
            SummaryAction::LoanForgiveness,
            lever is Pulled,
            false,
            *old(summary),
        ),
{
    if lever.pulled() {
        summary.people_saved = summary.people_saved + 5;
    } else {
        summary.people_killed = summary.people_killed + 5;
        summary.caused_preventable_tragedy = true;
    }
}

/// Updates the game summary at the end of the lobster scenario.
pub fn update_summary_lobster(summary: &mut GameSummary, lever: LeverState)
    requires
        old(summary).headroom(),
    ensures
        *final(summary) == spec_apply_summary(
            SummaryAction::Lobster,
            lever is Pulled,
            false,
            *old(summary),
        ),
{
    if lever.pulled() {
        summary.people_killed = summary.people_killed + 1;
        summary.lobsters_saved = summary.lobsters_saved + 5;
    } else {
        summary.people_saved = summary.people_saved + 1;
        summary.lobsters_killed = summary.lobsters_killed + 5;
    }
}

/// Updates the game summary at the end of the shopping cart scenario.
pub fn update_summary_shopping_cart(summary: &mut GameSummary, lever: LeverState)
    ensures
        *final(summary) == spec_apply_summary(
            SummaryAction::ShoppingCart,
            lever is Pulled,
            false,
            *old(summary),
        ),
{
    if lever.pulled() {
        summary.returned_shopping_cart = true;
    }
}

/// Updates the game summary at the end of the born lever puller scenario.
pub fn update_summary_born_lever_puller(summary: &mut GameSummary, lever: LeverState)
    requires
        old(summary).headroom(),
    ensures
        *final(summary) == spec_apply_summary(
            SummaryAction::BornLeverPuller,
            lever is Pulled,
            false,
            *old(summary),
        ),
{
    if lever.pulled() {
        summary.people_killed = summary.people_killed + 1;
        summary.caused_preventable_tragedy = true;
    } else {
        summary.people_saved = summary.people_saved + 1;
    }
}

/// Updates the game summary at the end of the double it scenario.
pub fn update_summary_double_it(summary: &mut GameSummary, lever: LeverState)
    requires
        old(summary).headroom(),
    ensures
        *final(summary) == spec_apply_summary(
            SummaryAction::DoubleIt,
            lever is Pulled,
            false,
            *old(summary),
        ),
{
    if lever.pulled() {
        summary.people_killed = summary.people_killed + 1;
    } else {
        summary.people_saved = summary.people_saved + 1;
        summary.doubled_it = true;
    }
}

/// Updates the game summary at the end of the Thomas the tank engine
/// scenario.
pub fn update_summary_thomas_the_tank_engine(summary: &mut GameSummary)
    requires
        old(summary).headroom(),
    ensures
        *final(summary) == spec_apply_summary(
            SummaryAction::ThomasTheTankEngine,
            false,
            false,
            *old(summary),
        ),
{
    summary.people_killed = summary.people_killed + 5;
    summary.watched_thomas_kill_people = true;
}

/// Updates the game summary at the end of the YouTube prank scenario.
pub fn update_summary_youtube_prank(summary: &mut GameSummary, lever: LeverState)
    requires
        old(summary).headroom(),
    ensures
        *final(summary) == spec_apply_summary(
            SummaryAction::YoutubePrank,
            lever is Pulled,
            false,
            *old(summary),
        ),
{
    if lever.pulled() {
        summary.people_saved = summary.people_saved + 5;
        summary.did_viral_prank = true;
    } else {
        summary.people_killed = summary.people_killed + 5;
    }
}

/// Updates the game summary at the end of the self scenario.
pub fn update_summary_self(summary: &mut GameSummary, jumping: crate::states::SelfJumping)
    requires
        old(summary).headroom(),
    ensures
        *final(summary) == spec_apply_summary(
            SummaryAction::SelfSacrifice,
            false,
            !(jumping is NotJumping),
            *old(summary),
        ),
{
    if jumping.jumped() {
        summary.people_killed = summary.people_killed + 1;
        summary.killed_self = true;
    } else {
        summary.people_saved = summary.people_saved + 1;
    }
}

/// Runs the reducer named by `action`.  Each reducer reads the lever state
/// or, for the self-sacrifice scenario, whether the player jumped.
#[verifier::rlimit(100)]
pub fn apply_summary_action(
    summary: &mut GameSummary,
    action: SummaryAction,
    lever: LeverState,
    jumping: crate::states::SelfJumping,
)
    requires
        old(summary).headroom(),
    ensures
        *final(summary) == spec_apply_summary(
            action,
            lever is Pulled,
            !(jumping is NotJumping),
            *old(summary),
        ),
{
    match action {
        SummaryAction::Original => update_summary_original(summary, lever),
        SummaryAction::Age => update_summary_age(summary, lever),
        SummaryAction::CloneDilemma => update_summary_clone(summary, lever),
        SummaryAction::Cliff => update_summary_cliff(summary, lever),
        SummaryAction::CoolHat => update_summary_cool_hat(summary, lever),
        SummaryAction::Victim => update_summary_victim(summary, lever),
        SummaryAction::Darwinism => update_summary_darwinism(summary, lever),
        SummaryAction::LoopTheLoop => update_summary_loop(summary, lever),
        SummaryAction::Professors => update_summary_professors(summary, lever),
        SummaryAction::LoanForgiveness => update_summary_loan_forgiveness(summary, lever),
        SummaryAction::Lobster => update_summary_lobster(summary, lever),
        SummaryAction::ShoppingCart => update_summary_shopping_cart(summary, lever),
        SummaryAction::BornLeverPuller => update_summary_born_lever_puller(summary, lever),
        SummaryAction::DoubleIt => update_summary_double_it(summary, lever),
        SummaryAction::ThomasTheTankEngine => update_summary_thomas_the_tank_engine(summary),
        SummaryAction::YoutubePrank => update_summary_youtube_prank(summary, lever),
        SummaryAction::SelfSacrifice => update_summary_self(summary, jumping),
    }
}

} // verus!
