//! The per-scenario hook machines that run beside the sequencer: timed
//! display behaviours that some scenarios attach, driven by the same frame
//! deltas.

use vstd::prelude::*;
use crate::effects::{scream_name_for_draw, spec_valid_scream, SCREAM_SOUND_COUNT};
use crate::timer::CountdownTimer;

verus! {

/// How long before the countdown expires the extra hostages are wounded.
pub const OTHER_HOSTAGES_SWAP_LEAD_MS: u64 = 1_500;

/// How many extra hostages scream when they are wounded.
pub const OTHER_HOSTAGES_SCREAM_COUNT: usize = 10;

/// The shortest delay before the next person's switch may toggle again.
pub const NEXT_SWITCH_DELAY_MIN_MS: u64 = 500;

/// The span of the random part of the next person's switch delay.
pub const NEXT_SWITCH_DELAY_SPAN_MS: u64 = 1_500;

/// The extra-hostages display of the loan-forgiveness scenario: a group of
/// hostages the trolley has already reached is wounded a fixed lead time
/// before the countdown expires.
#[derive(Clone, Copy, Debug)]
pub struct OtherHostagesSwap {
    /// Counts down to the moment the extra hostages are wounded.
    pub timer: CountdownTimer,
}

impl OtherHostagesSwap {
    /// Starts the swap timer for a scenario of the given countdown
    /// duration: it fires the lead time before the countdown does, so the
    /// countdown must outlast the lead.
    pub fn new(scenario_duration_ms: u64) -> (r: OtherHostagesSwap)
        requires
            scenario_duration_ms > OTHER_HOSTAGES_SWAP_LEAD_MS,
        ensures
            r.timer.wf(),
            r.timer.duration_ms == scenario_duration_ms - OTHER_HOSTAGES_SWAP_LEAD_MS,
            r.timer.elapsed_ms == 0,
    {
        OtherHostagesSwap {
            timer: CountdownTimer::new(scenario_duration_ms - OTHER_HOSTAGES_SWAP_LEAD_MS),
        }
    }

    /// Advances the swap timer.  The tick on which it runs out returns the
    /// scream sounds to play — one random numbered scream per extra hostage
    /// — and the host swaps the group to its wounded texture; every other
    /// tick returns nothing.
    pub fn update(&mut self, delta_ms: u64) -> (r: Option<Vec<String>>)
        requires
            old(self).timer.wf(),
        ensures
            final(self).timer == old(self).timer.spec_tick(delta_ms),
            r is Some <==> old(self).timer.spec_fires(delta_ms),
            r matches Some(screams) ==> screams@.len() == OTHER_HOSTAGES_SCREAM_COUNT
                && (forall|i: int| 0 <= i < screams@.len() ==> spec_valid_scream(
                (#[trigger] screams@[i])@,
                Option::<Seq<char>>::None,
            )),
    {
        let fired = self.timer.tick(delta_ms);
        if fired {
            let mut screams: Vec<String> = Vec::new();
            let mut i: usize = 0;
            while i < OTHER_HOSTAGES_SCREAM_COUNT
                invariant
                    i <= OTHER_HOSTAGES_SCREAM_COUNT,
                    screams@.len() == i,
                    forall|j: int| 0 <= j < i ==> spec_valid_scream(
                        (#[trigger] screams@[j])@,
                        Option::<Seq<char>>::None,
                    ),
                decreases OTHER_HOSTAGES_SCREAM_COUNT - i,
            {
                screams.push(scream_name_for_draw(crate::effects::random_u64()));
                i = i + 1;
            }
            Some(screams)
        } else {
            None
        }
    }
}

/// The switch delay a draw of the random generator stands for: the fixed
/// minimum plus the draw's remainder modulo the delay span.
pub fn switch_delay_for_draw(draw: u64) -> (r: u64)
    ensures
        r == NEXT_SWITCH_DELAY_MIN_MS + draw % NEXT_SWITCH_DELAY_SPAN_MS,
        NEXT_SWITCH_DELAY_MIN_MS <= r < NEXT_SWITCH_DELAY_MIN_MS + NEXT_SWITCH_DELAY_SPAN_MS,
{
    NEXT_SWITCH_DELAY_MIN_MS + draw % NEXT_SWITCH_DELAY_SPAN_MS
}

/// Draws a random delay before the next person's switch toggles, always
/// within its fixed bounds.
pub fn random_switch_delay() -> (r: u64)
    ensures
        NEXT_SWITCH_DELAY_MIN_MS <= r < NEXT_SWITCH_DELAY_MIN_MS + NEXT_SWITCH_DELAY_SPAN_MS,
{
    switch_delay_for_draw(crate::effects::random_u64())
}

/// The next person's switch in the doubled scenario: it toggles back and
/// forth at random intervals until the trolley reaches it, and stands
/// normal from then on.
#[derive(Clone, Copy, Debug)]
pub struct NextPersonSwitch {
    /// Whether the next person's switch stands toggled.
    pub switch: bool,
    /// Counts down to the next toggle.
    pub timer: CountdownTimer,
    /// Whether the trolley has reached the switch; once it has, the switch
    /// stops moving.
    pub reached: bool,
}

impl NextPersonSwitch {
    /// Starts the switch in its normal position with the given first delay.
    pub fn new(initial_delay_ms: u64) -> (r: NextPersonSwitch)
        requires
            initial_delay_ms > 0,
        ensures
            r.switch == false,
            r.reached == false,
            r.timer.wf(),
            r.timer.duration_ms == initial_delay_ms,
            r.timer.elapsed_ms == 0,
    {
        NextPersonSwitch { switch: false, timer: CountdownTimer::new(initial_delay_ms), reached: false }
    }

    /// The trolley has reached the switch: it snaps back to normal and
    /// stops moving.
    pub fn set_next_switch_reached(&mut self)
        ensures
            final(self).switch == false,
            final(self).reached == true,
            final(self).timer == old(self).timer,
    {
        self.switch = false;
        self.reached = true;
    }

    /// Advances the toggle timer by one frame; `next_delay_ms` is the delay
    /// to use until the toggle after this one.  Returns the new switch
    /// position on the tick the switch toggles, and nothing otherwise; a
    /// reached switch never toggles again.
    pub fn update(&mut self, delta_ms: u64, next_delay_ms: u64) -> (r: Option<bool>)
        requires
            old(self).timer.wf(),
            next_delay_ms > 0,
        ensures
            final(self).reached == old(self).reached,
            old(self).reached ==> *final(self) == *old(self) && r is None,
            !old(self).reached ==> {
                let fires = old(self).timer.spec_fires(delta_ms);
                &&& !fires ==> final(self).switch == old(self).switch && final(self).timer == old(
                    self,
                ).timer.spec_tick(delta_ms) && r is None
                &&& fires ==> {
                    &&& final(self).switch == !old(self).switch
                    &&& final(self).timer == (CountdownTimer {
                        duration_ms: next_delay_ms,
                        elapsed_ms: 0,
                    })
                    &&& r == Some(!old(self).switch)
                }
            },
    {
        if self.reached {
            return None;
        }
        let fired = self.timer.tick(delta_ms);
        if fired {
            self.switch = !self.switch;
            self.timer = CountdownTimer::new(next_delay_ms);
            Some(self.switch)
        } else {
            None
        }
    }
}

} // verus!
