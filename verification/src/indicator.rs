//! The beacon indicator's timing: given when the last beacon arrived,
//! which colour the indicator shows now and how long until it changes
//! on its own. A timeline of indicator states runs from the arrival of
//! a beacon: steady phases hold one colour, blinking phases alternate
//! two. The window that draws the colour lives at the process edge.
//!
//! Times are nanoseconds in a `u64`.

use vstd::prelude::*;
use crate::types::sat_add;

verus! {

/// An indicator colour, as alpha, red, green and blue channels.
#[derive(Debug, Clone, Copy, PartialEq, Eq, Structural)]
pub struct IndicatorColor {
    pub alpha: u8,
    pub red: u8,
    pub green: u8,
    pub blue: u8,
}

/// One phase of the indicator timeline.
#[derive(Debug, Clone, Copy, PartialEq, Eq, Structural)]
pub enum IndicatorState {
    /// Hold one colour for this many nanoseconds.
    Steady(u64, IndicatorColor),
    /// For this many nanoseconds, alternate: the second field long in
    /// the first colour, then the third field long in the second.
    Blinking(u64, u64, u64, IndicatorColor, IndicatorColor),
}

/// How long a phase lasts.
pub open spec fn spec_duration_of(st: IndicatorState) -> u64 {
    match st {
        IndicatorState::Steady(d, _) => d,
        IndicatorState::Blinking(d, _, _, _, _) => d,
    }
}

/// The indicator timeline: the colour before any beacon was seen, and
/// the phases that follow each beacon.
#[derive(Debug, Clone)]
pub struct IndicatorStates {
    /// Colour shown before the first beacon arrives
    pub unset: IndicatorColor,
    /// The phases, run in order from each beacon's arrival
    pub indicator_states: Vec<IndicatorState>,
}

/// A blink period must be positive and fit the arithmetic.
pub open spec fn spec_state_wf(st: IndicatorState) -> bool {
    match st {
        IndicatorState::Steady(_, _) => true,
        IndicatorState::Blinking(_, on, off, _, _) => 0 < on + off <= u64::MAX,
    }
}

/// What the timeline says at `elapsed` nanoseconds past the last
/// beacon, scanning the phases from the one that starts at `start`:
/// the colour to show, and the delay to the next self-inflicted change
/// (`None` past the end of the timeline).
pub open spec fn spec_scan(
    states: Seq<IndicatorState>,
    elapsed: u64,
    start: u64,
    unset: IndicatorColor,
) -> (Option<u64>, IndicatorColor)
    decreases states.len(),
{
    if states.len() == 0 {
        (None, unset)
    } else {
        let st = states[0];
        let end = sat_add(start, spec_duration_of(st));
        if elapsed >= end {
            spec_scan(states.drop_first(), elapsed, end, unset)
        } else {
            match st {
                IndicatorState::Steady(_, color) => (Some((end - elapsed) as u64), color),
                IndicatorState::Blinking(_, on, off, color_on, color_off) => {
                    let period = (on + off) as u64;
                    let offset = (elapsed - start) as u64 % period;
                    let rem = (end - elapsed) as u64;
                    if offset < on {
                        let to_off = (on - offset) as u64;
                        (
                            Some(
                                if to_off < rem {
                                    to_off
                                } else {
                                    rem
                                },
                            ),
                            color_on,
                        )
                    } else {
                        let to_on = (period - offset) as u64;
                        (
                            Some(
                                if to_on < rem {
                                    to_on
                                } else {
                                    rem
                                },
                            ),
                            color_off,
                        )
                    }
                },
            }
        }
    }
}

/// The whole decision: no beacon yet, or a clock that stepped
/// backwards, shows the unset colour with no timeout; otherwise the
/// timeline is scanned at the elapsed time.
pub open spec fn spec_delay_and_color(
    s: IndicatorStates,
    last_beacon: Option<u64>,
    now: u64,
) -> (Option<u64>, IndicatorColor) {
    match last_beacon {
        None => (None, s.unset),
        Some(last) => {
            if last > now {
                (None, s.unset)
            } else {
                spec_scan(s.indicator_states@, (now - last) as u64, 0, s.unset)
            }
        },
    }
}

impl IndicatorStates {
    /// Every blinking phase has a positive period.
    pub open spec fn wf(self) -> bool {
        forall|i: int|
            0 <= i < self.indicator_states@.len() ==> spec_state_wf(
                #[trigger] self.indicator_states@[i],
            )
    }

    pub fn new(unset: IndicatorColor, indicator_states: Vec<IndicatorState>) -> (r: Self)
        ensures
            r.unset == unset,
            r.indicator_states == indicator_states,
    {
        IndicatorStates { unset, indicator_states }
    }

    /// Colour to use before the first beacon arrives.
    pub fn unset_color(&self) -> (r: IndicatorColor)
        ensures
            r == self.unset,
    {
        self.unset
    }

    /// Compute the current colour and the delay to the next event that
    /// will change it if no beacon arrives. The delay is `None` where
    /// only a beacon can change the colour: before the first beacon,
    /// after a backwards clock step, and past the end of the timeline.
    pub fn delay_and_color(&self, last_beacon: &Option<u64>, now: u64) -> (r: (
        Option<u64>,
        IndicatorColor,
    ))
        requires
            self.wf(),
        ensures
            r == spec_delay_and_color(*self, *last_beacon, now),
    {
        let last = match last_beacon {
            None => {
                return (None, self.unset);
            },
            Some(last) => *last,
        };
        if last > now {
            return (None, self.unset);
        }
        let elapsed = now - last;
        let n = self.indicator_states.len();
        let mut start: u64 = 0;
        let mut i: usize = 0;
        proof {
            assert(self.indicator_states@.skip(0) =~= self.indicator_states@);
        }
        while i < n
            invariant
                self.wf(),
                i <= n,
                n == self.indicator_states@.len(),
                elapsed >= start,
                spec_delay_and_color(*self, *last_beacon, now) == spec_scan(
                    self.indicator_states@,
                    elapsed,
                    0,
                    self.unset,
                ),
                spec_scan(self.indicator_states@, elapsed, 0, self.unset) == spec_scan(
                    self.indicator_states@.skip(i as int),
                    elapsed,
                    start,
                    self.unset,
                ),
            decreases n - i,
        {
            let st = self.indicator_states[i];
            let duration = match st {
                IndicatorState::Steady(d, _) => d,
                IndicatorState::Blinking(d, _, _, _, _) => d,
            };
            let end = start.saturating_add(duration);
            proof {
                assert(spec_state_wf(self.indicator_states@[i as int]));
                assert(self.indicator_states@.skip(i as int)[0] == self.indicator_states@[
                i as int]);
                assert(self.indicator_states@.skip(i as int).drop_first()
                    =~= self.indicator_states@.skip(i as int + 1));
            }
            if elapsed >= end {
                start = end;
                i = i + 1;
                continue ;
            }
            match st {
                IndicatorState::Steady(_, color) => {
                    proof {
                        assert(spec_scan(
                            self.indicator_states@.skip(i as int),
                            elapsed,
                            start,
                            self.unset,
                        ) == (Some((end - elapsed) as u64), color));
                    }
                    return (Some(end - elapsed), color);
                },
                IndicatorState::Blinking(_, on, off, color_on, color_off) => {
                    let period = on + off;
                    let offset = (elapsed - start) % period;
                    let rem = end - elapsed;
                    if offset < on {
                        let to_off = on - offset;
                        let timeout = if to_off < rem {
                            to_off
                        } else {
                            rem
                        };
                        proof {
                            assert(spec_scan(
                                self.indicator_states@.skip(i as int),
                                elapsed,
                                start,
                                self.unset,
                            ) == (Some(timeout), color_on));
                        }
                        return (Some(timeout), color_on);
                    } else {
                        let to_on = period - offset;
                        let timeout = if to_on < rem {
                            to_on
                        } else {
                            rem
                        };
                        proof {
                            assert(spec_scan(
                                self.indicator_states@.skip(i as int),
                                elapsed,
                                start,
                                self.unset,
                            ) == (Some(timeout), color_off));
                        }
                        return (Some(timeout), color_off);
                    }
                },
            }
        }
        proof {
            assert(self.indicator_states@.skip(n as int) =~= Seq::<IndicatorState>::empty());
        }
        (None, self.unset)
    }
}

} // verus!
