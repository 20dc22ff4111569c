//! The foreground control task.
//!
//! Each button press speeds the blinker up: it subtracts a fixed step from
//! the shared delay, resets the delay to its starting value once the result
//! would drop below the floor, publishes the new delay through the shared
//! cell, and emits a status message carrying a wrapping press counter.
//! The reset fires when the value after subtraction is strictly below the
//! floor, so the floor itself is still a valid delay.

use vstd::prelude::*;

use crate::frame::counter_message;
use crate::frame::format_counter;
use crate::state_cell::StateCell;

verus! {

/// The delay the blinker starts with, and the value the schedule resets
/// to, in milliseconds.
pub const INITIAL_DELAY_MS: u32 = 2000;

/// How much one button press shortens the delay, in milliseconds.
pub const DELAY_STEP_MS: u32 = 300;

/// The smallest delay the schedule ever publishes, in milliseconds.
pub const MIN_DELAY_MS: u32 = 500;

/// The delay after one button press: the step is subtracted, and the
/// schedule restarts from the initial value when the result would fall
/// strictly below the floor.
pub open spec fn spec_next_delay(d: u32) -> u32 {
    if d - DELAY_STEP_MS < MIN_DELAY_MS {
        INITIAL_DELAY_MS
    } else {
        (d - DELAY_STEP_MS) as u32
    }
}

/// Applies one button press to a delay value.
pub fn next_delay(d: u32) -> (r: u32)
    ensures
        r == spec_next_delay(d),
        MIN_DELAY_MS <= r,
        r <= if d > INITIAL_DELAY_MS { d as int } else { INITIAL_DELAY_MS as int },
{
    if d < DELAY_STEP_MS + MIN_DELAY_MS {
        INITIAL_DELAY_MS
    } else {
        d - DELAY_STEP_MS
    }
}

/// The press counter after one more press: it counts modulo 256.
pub open spec fn spec_next_counter(c: u8) -> u8 {
    if c == 255 {
        0
    } else {
        (c + 1) as u8
    }
}

/// The foreground task's own state: the delay it last published and the
/// number of presses seen so far, modulo 256.
pub struct Controller {
    delay_ms: u32,
    counter: u8,
}

impl Controller {
    /// The delay the controller last published, in milliseconds.
    pub closed spec fn delay(&self) -> u32 {
        self.delay_ms
    }

    /// The press counter, modulo 256.
    pub closed spec fn counter(&self) -> u8 {
        self.counter
    }

    /// The published delay always stays between the floor and the initial
    /// value.
    pub open spec fn wf(&self) -> bool {
        MIN_DELAY_MS <= self.delay() <= INITIAL_DELAY_MS
    }

    /// Creates the controller with the initial delay and the counter at
    /// zero.
    pub fn new() -> (c: Controller)
        ensures
            c.wf(),
            c.delay() == INITIAL_DELAY_MS,
            c.counter() == 0,
    {
        Controller { delay_ms: INITIAL_DELAY_MS, counter: 0 }
    }

    /// The delay the controller last published, in milliseconds.
    pub fn current_delay_ms(&self) -> (d: u32)
        ensures
            d == self.delay(),
    {
        self.delay_ms
    }

    /// The number of presses seen so far, modulo 256.
    pub fn press_count(&self) -> (c: u8)
        ensures
            c == self.counter(),
    {
        self.counter
    }

    /// Handles one button press: steps the delay along the schedule,
    /// publishes it through the shared cell, advances the press counter,
    /// and returns the status message to transmit for this press.
    pub fn on_press(&mut self, cell: &mut StateCell) -> (msg: Vec<u8>)
        requires
            old(self).wf(),
            old(cell).wf(),
        ensures
            final(self).wf(),
            final(cell).wf(),
            final(self).delay() == spec_next_delay(old(self).delay()),
            final(cell).history() == old(cell).history().push(spec_next_delay(old(self).delay())),
            final(cell).current() == final(self).delay(),
            final(self).counter() == spec_next_counter(old(self).counter()),
            msg@ == counter_message(old(self).counter()),
    {
        self.delay_ms = next_delay(self.delay_ms);
        cell.write(self.delay_ms);
        let msg = format_counter(self.counter);
        self.counter = if self.counter == 255 {
            0
        } else {
            self.counter + 1
        };
        msg
    }
}

} // verus!
