//! Coalesces the wheel ticks of one scroll gesture into one event.
//!
//! Each tick moves a signed accumulator. The first tick of a burst asks
//! for a one-shot timer; when the timer expires, the accumulated rows go
//! out as one event, unless the ticks have cancelled each other.

use crate::event::AppEvent;
use vstd::prelude::*;

verus! {

/// How long the timer runs after the first tick of a burst, in
/// milliseconds.
pub const DEBOUNCE_WINDOW_MS: u64 = 100;

/// The accumulator as plain values.
#[derive(Debug, Clone, Copy, PartialEq, Eq, Structural)]
pub struct ScrollAccumulator {
    /// The net rows of the ticks since the last expiry, positive downwards.
    pub pending_delta: i32,
    /// Whether a timer is running.
    pub timer_scheduled: bool,
}

/// `value + 1`, wrapping round at the end of the range.
pub open spec fn wrapping_next(value: i32) -> i32 {
    if value == i32::MAX {
        i32::MIN
    } else {
        (value + 1) as i32
    }
}

/// `value - 1`, wrapping round at the end of the range.
pub open spec fn wrapping_previous(value: i32) -> i32 {
    if value == i32::MIN {
        i32::MAX
    } else {
        (value - 1) as i32
    }
}

impl ScrollAccumulator {
    /// Nothing pending and no timer running.
    pub open spec fn idle() -> ScrollAccumulator {
        ScrollAccumulator { pending_delta: 0, timer_scheduled: false }
    }

    /// The accumulator after one tick, downwards or upwards.
    pub open spec fn ticked(self, down: bool) -> ScrollAccumulator {
        ScrollAccumulator {
            pending_delta: if down {
                wrapping_next(self.pending_delta)
            } else {
                wrapping_previous(self.pending_delta)
            },
            timer_scheduled: true,
        }
    }

    /// The accumulator after all of `ticks`, true standing for a tick
    /// downwards.
    pub open spec fn ticked_all(self, ticks: Seq<bool>) -> ScrollAccumulator
        decreases ticks.len(),
    {
        if ticks.len() == 0 {
            self
        } else {
            self.ticked_all(ticks.drop_last()).ticked(ticks.last())
        }
    }

    /// The number of timers that `ticks` ask for.
    pub open spec fn timers_started(self, ticks: Seq<bool>) -> nat
        decreases ticks.len(),
    {
        if ticks.len() == 0 {
            0
        } else {
            self.timers_started(ticks.drop_last()) + if self.ticked_all(
                ticks.drop_last(),
            ).timer_scheduled {
                0nat
            } else {
                1nat
            }
        }
    }

    /// The event that goes out when the timer expires.
    pub open spec fn flushed(self) -> Option<AppEvent> {
        if self.pending_delta != 0 {
            Some(AppEvent::ScrollDelta(self.pending_delta))
        } else {
            None
        }
    }
}

/// The signed sum of `ticks`: one up for each tick downwards, one down for
/// each tick upwards.
pub open spec fn net_rows(ticks: Seq<bool>) -> int
    decreases ticks.len(),
{
    if ticks.len() == 0 {
        0
    } else {
        net_rows(ticks.drop_last()) + if ticks.last() {
            1int
        } else {
            -1int
        }
    }
}

/// Debounces wheel ticks.
pub struct ScrollEventHelper {
    scroll_delta: i32,
    timer_scheduled: bool,
}

impl View for ScrollEventHelper {
    type V = ScrollAccumulator;

    closed spec fn view(&self) -> ScrollAccumulator {
        ScrollAccumulator {
            pending_delta: self.scroll_delta,
            timer_scheduled: self.timer_scheduled,
        }
    }
}

impl ScrollEventHelper {
    /// An idle coalescer.
    pub fn new() -> (helper: ScrollEventHelper)
        ensures
            helper@ == ScrollAccumulator::idle(),
    {
        ScrollEventHelper { scroll_delta: 0, timer_scheduled: false }
    }

    /// Takes a tick upwards. Returns true if a timer is to be started.
    pub fn scroll_up(&mut self) -> (start_timer: bool)
        ensures
            final(self)@ == old(self)@.ticked(false),
            start_timer == !old(self)@.timer_scheduled,
    {
        self.scroll_delta = if self.scroll_delta == i32::MIN {
            i32::MAX
        } else {
            self.scroll_delta - 1
        };
        self.schedule_notification()
    }

    /// Takes a tick downwards. Returns true if a timer is to be started.
    pub fn scroll_down(&mut self) -> (start_timer: bool)
        ensures
            final(self)@ == old(self)@.ticked(true),
            start_timer == !old(self)@.timer_scheduled,
    {
        self.scroll_delta = if self.scroll_delta == i32::MAX {
            i32::MIN
        } else {
            self.scroll_delta + 1
        };
        self.schedule_notification()
    }

    /// Asks for a one-shot timer only once per burst of wheel ticks:
    /// returns true, and marks the timer as scheduled, if none was.
    pub fn schedule_notification(&mut self) -> (start_timer: bool)
        ensures
            final(self)@ == (ScrollAccumulator { timer_scheduled: true, ..old(self)@ }),
            start_timer == !old(self)@.timer_scheduled,
    {
        if self.timer_scheduled {
            return false;
        }
        self.timer_scheduled = true;
        true
    }

    /// Ends the burst when the timer expires: takes the accumulated rows,
    /// leaving none, and clears the mark. Returns the one event of the
    /// burst, or none if its ticks have cancelled each other.
    pub fn timer_expired(&mut self) -> (event: Option<AppEvent>)
        ensures
            final(self)@ == ScrollAccumulator::idle(),
            event == old(self)@.flushed(),
    {
        let accumulated = self.scroll_delta;
        self.scroll_delta = 0;
        self.timer_scheduled = false;
        if accumulated != 0 {
            Some(AppEvent::ScrollDelta(accumulated))
        } else {
            None
        }
    }

    /// The rows that are pending.
    pub fn pending_delta(&self) -> (delta: i32)
        ensures
            delta == self@.pending_delta,
    {
        self.scroll_delta
    }

    /// Tells whether a timer is running.
    pub fn is_timer_scheduled(&self) -> (scheduled: bool)
        ensures
            scheduled == self@.timer_scheduled,
    {
        self.timer_scheduled
    }
}

/// One burst gives one event. Take an idle coalescer and any burst of
/// ticks, at least one and fewer than the accumulator can count. The burst
/// starts exactly one timer, with its first tick. When the timer expires,
/// one event goes out that carries the signed sum of the ticks, or none if
/// that sum is 0, and the coalescer is idle again.
pub proof fn lemma_burst_gives_one_event(ticks: Seq<bool>)
    requires
        0 < ticks.len() <= i32::MAX,
    ensures
        ScrollAccumulator::idle().timers_started(ticks) == 1,
        ScrollAccumulator::idle().ticked_all(ticks).timer_scheduled,
        ScrollAccumulator::idle().ticked_all(ticks).pending_delta == net_rows(ticks),
        ScrollAccumulator::idle().ticked_all(ticks).flushed() == if net_rows(ticks) != 0 {
            Some(AppEvent::ScrollDelta(net_rows(ticks) as i32))
        } else {
            None
        },
        -ticks.len() <= net_rows(ticks) <= ticks.len(),
    decreases ticks.len(),
{
    let head = ticks.drop_last();
    if head.len() > 0 {
        lemma_burst_gives_one_event(head);
    } else {
        assert(ScrollAccumulator::idle().ticked_all(head) == ScrollAccumulator::idle());
        assert(ScrollAccumulator::idle().timers_started(head) == 0);
        assert(net_rows(head) == 0);
    }
}

} // verus!
