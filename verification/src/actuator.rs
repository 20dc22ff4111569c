//! The periodic actuator task.
//!
//! The blinker task runs forever: each cycle it reads the shared delay
//! cell, suspends for that many milliseconds, then toggles its output.
//! A cycle reads the cell once, when its suspension begins, so a delay
//! written mid-suspension leaves the in-flight suspension untouched and
//! takes effect from the following cycle on.
//!
//! The timing model below makes that exact: given the cell's initial value
//! and the time-ordered writes the foreground task makes, `wake_time` gives
//! the instant each cycle's suspension ends, and the simulation computes
//! those instants with a real cell-value lookup per cycle.

use vstd::prelude::*;

use crate::state_cell::StateCell;

verus! {

/// The output the actuator drives: one LED, on or off.
pub struct Blinker {
    led_on: bool,
}

impl Blinker {
    /// Whether the LED is lit.
    pub closed spec fn is_on(&self) -> bool {
        self.led_on
    }

    /// Creates the blinker with the LED in the given state.
    pub fn new(led_on: bool) -> (b: Blinker)
        ensures
            b.is_on() == led_on,
    {
        Blinker { led_on }
    }

    /// Whether the LED is lit.
    pub fn is_lit(&self) -> (r: bool)
        ensures
            r == self.is_on(),
    {
        self.led_on
    }

    /// Toggles the LED.
    pub fn toggle(&mut self)
        ensures
            final(self).is_on() == !old(self).is_on(),
    {
        self.led_on = !self.led_on;
    }

    /// Drives the LED to a given state.
    pub fn set(&mut self, on: bool)
        ensures
            final(self).is_on() == on,
    {
        self.led_on = on;
    }
}

/// The LED state the polling loop drives for a button level read: the
/// button is wired pull-down, so a high level means unpressed and the LED
/// goes off; a low level means pressed and the LED goes on.
pub fn led_for_button_level(button_high: bool) -> (led_on: bool)
    ensures
        led_on == !button_high,
{
    !button_high
}

/// The LED state the interrupt-driven loop drives after an edge: a rising
/// edge is a release, so the LED goes off; a falling edge is a press, so
/// the LED goes on.
pub fn led_after_edge(kind: crate::edge::EdgeKind) -> (led_on: bool)
    ensures
        led_on == (kind is Falling),
{
    match kind {
        crate::edge::EdgeKind::Rising => false,
        crate::edge::EdgeKind::Falling => true,
    }
}

/// One cycle of the blinker task: reads the delay to suspend for from the
/// shared cell and toggles the output. The shell performs the suspension
/// between the read and the toggle; the delay of the cycle is fixed by the
/// read at the cycle's start, whatever is written to the cell meanwhile.
pub fn led_cycle(cell: &StateCell, led: &mut Blinker) -> (sleep_ms: u32)
    requires
        cell.wf(),
    ensures
        sleep_ms == cell.current(),
        final(led).is_on() == !old(led).is_on(),
{
    let sleep_ms = cell.read();
    led.toggle();
    sleep_ms
}

/// The largest delay value the timing model admits, in milliseconds.
pub const MAX_MODEL_DELAY_MS: u32 = 1000000;

/// The largest number of cycles the timing model admits.
pub const MAX_MODEL_CYCLES: usize = 1000;

/// The writes are in strictly increasing time order.
pub open spec fn sorted_by_time(writes: Seq<(u64, u32)>) -> bool {
    forall|i: int, j: int| 0 <= i < j < writes.len() ==> writes[i].0 < writes[j].0
}

/// The initial value and every written value stay within the model's
/// delay bound.
pub open spec fn delays_bounded(init: u32, writes: Seq<(u64, u32)>) -> bool {
    init <= MAX_MODEL_DELAY_MS && forall|i: int|
        0 <= i < writes.len() ==> (#[trigger] writes[i]).1 <= MAX_MODEL_DELAY_MS
}

/// The value the cell holds at time `t`: the value of the last write at
/// or before `t`, or the initial value when there is none.
pub open spec fn cell_value_at(init: u32, writes: Seq<(u64, u32)>, t: int) -> u32
    decreases writes.len(),
{
    if writes.len() == 0 {
        init
    } else if writes.last().0 <= t {
        writes.last().1
    } else {
        cell_value_at(init, writes.drop_last(), t)
    }
}

/// The instant cycle `k`'s suspension ends: cycle 0 begins at time 0,
/// every later cycle begins when the previous one woke, and each cycle
/// suspends for the cell value read at its beginning.
pub open spec fn wake_time(init: u32, writes: Seq<(u64, u32)>, k: nat) -> int
    decreases k,
{
    if k == 0 {
        cell_value_at(init, writes, 0) as int
    } else {
        wake_time(init, writes, (k - 1) as nat) + cell_value_at(
            init,
            writes,
            wake_time(init, writes, (k - 1) as nat),
        )
    }
}

/// The cell's value at any time is the initial value or a written one, so
/// it stays within the model's delay bound.
pub proof fn lemma_cell_value_bounded(init: u32, writes: Seq<(u64, u32)>, t: int)
    requires
        delays_bounded(init, writes),
    ensures
        cell_value_at(init, writes, t) <= MAX_MODEL_DELAY_MS,
    decreases writes.len(),
{
    if writes.len() > 0 {
        if writes.last().0 <= t {
            assert(writes[writes.len() - 1].1 <= MAX_MODEL_DELAY_MS);
        } else {
            assert(delays_bounded(init, writes.drop_last())) by {
                assert(forall|i: int|
                    0 <= i < writes.drop_last().len() ==> writes.drop_last()[i]
                        == writes[i]);
            }
            lemma_cell_value_bounded(init, writes.drop_last(), t);
        }
    }
}

/// A cycle never wakes before an earlier cycle.
pub proof fn lemma_wake_monotone(init: u32, writes: Seq<(u64, u32)>, j: nat, k: nat)
    requires
        j <= k,
    ensures
        wake_time(init, writes, j) <= wake_time(init, writes, k),
    decreases k,
{
    if j < k {
        lemma_wake_monotone(init, writes, j, (k - 1) as nat);
    }
}

/// A write made strictly after time `t` does not change what the cell
/// held at `t`.
pub proof fn lemma_later_write_invisible(init: u32, writes: Seq<(u64, u32)>, w: (u64, u32), t: int)
    requires
        w.0 > t,
    ensures
        cell_value_at(init, writes.push(w), t) == cell_value_at(init, writes, t),
{
    assert(writes.push(w).drop_last() =~= writes);
}

/// Delay updates take effect from the next cycle on: a write made strictly
/// after cycle `k`'s suspension began leaves every wake time up to and
/// including cycle `k`'s unchanged. The in-flight suspension completes
/// with the old value; only the following suspension can read the new one.
pub proof fn lemma_delay_update_next_cycle(
    init: u32,
    writes: Seq<(u64, u32)>,
    w: (u64, u32),
    k: nat,
)
    requires
        k == 0 ==> w.0 > 0,
        k > 0 ==> w.0 > wake_time(init, writes, (k - 1) as nat),
    ensures
        wake_time(init, writes.push(w), k) == wake_time(init, writes, k),
    decreases k,
{
    if k == 0 {
        lemma_later_write_invisible(init, writes, w, 0);
    } else {
        let prev = wake_time(init, writes, (k - 1) as nat);
        if k == 1 {
            lemma_wake_monotone(init, writes, 0, (k - 1) as nat);
            assert(w.0 > 0) by {
                lemma_wake_time_nonneg(init, writes, (k - 1) as nat);
            }
        } else {
            lemma_wake_monotone(init, writes, (k - 2) as nat, (k - 1) as nat);
        }
        lemma_delay_update_next_cycle(init, writes, w, (k - 1) as nat);
        lemma_later_write_invisible(init, writes, w, prev);
    }
}

/// A wake time is never negative: delays are unsigned.
pub proof fn lemma_wake_time_nonneg(init: u32, writes: Seq<(u64, u32)>, k: nat)
    ensures
        wake_time(init, writes, k) >= 0,
    decreases k,
{
    if k > 0 {
        lemma_wake_time_nonneg(init, writes, (k - 1) as nat);
    }
}

/// The cell's value at time `t`, computed by scanning the write log.
fn value_at(init: u32, writes: &Vec<(u64, u32)>, t: u64) -> (v: u32)
    ensures
        v == cell_value_at(init, writes@, t as int),
{
    let mut v = init;
    let mut i: usize = 0;
    while i < writes.len()
        invariant
            i <= writes@.len(),
            v == cell_value_at(init, writes@.take(i as int), t as int),
        decreases writes@.len() - i,
    {
        proof {
            assert(writes@.take(i + 1).drop_last() =~= writes@.take(i as int));
            assert(writes@.take(i + 1).last() == writes@[i as int]);
        }
        if writes[i].0 <= t {
            v = writes[i].1;
        } else {
            let ghost tail = writes@.take(i + 1);
            assert(cell_value_at(init, tail, t as int) == cell_value_at(
                init,
                tail.drop_last(),
                t as int,
            ));
        }
        i = i + 1;
    }
    proof {
        assert(writes@.take(writes@.len() as int) =~= writes@);
    }
    v
}

/// Runs the blinker's timing against a write log: returns the instants at
/// which each of the first `cycles` suspensions ends. Each cycle's
/// suspension length is the cell's value at the moment the suspension
/// begins — a write landing mid-suspension changes nothing before the
/// next cycle.
pub fn simulate_wake_times(init: u32, writes: &Vec<(u64, u32)>, cycles: usize) -> (r: Vec<u64>)
    requires
        sorted_by_time(writes@),
        delays_bounded(init, writes@),
        cycles <= MAX_MODEL_CYCLES,
    ensures
        r@.len() == cycles,
        forall|k: int| 0 <= k < cycles ==> r@[k] == wake_time(init, writes@, k as nat),
{
    let mut r: Vec<u64> = Vec::new();
    let mut now: u64 = 0;
    let mut k: usize = 0;
    while k < cycles
        invariant
            k <= cycles,
            cycles <= MAX_MODEL_CYCLES,
            sorted_by_time(writes@),
            delays_bounded(init, writes@),
            r@.len() == k,
            k == 0 ==> now == 0,
            k > 0 ==> now == wake_time(init, writes@, (k - 1) as nat),
            now <= k * (MAX_MODEL_DELAY_MS as int),
            forall|j: int| 0 <= j < k ==> r@[j] == wake_time(init, writes@, j as nat),
        decreases cycles - k,
    {
        let d = value_at(init, writes, now);
        proof {
            lemma_cell_value_bounded(init, writes@, now as int);
            if k == 0 {
                assert(wake_time(init, writes@, 0nat) == cell_value_at(init, writes@, 0));
            } else {
                assert(wake_time(init, writes@, k as nat) == wake_time(
                    init,
                    writes@,
                    (k - 1) as nat,
                ) + cell_value_at(init, writes@, wake_time(init, writes@, (k - 1) as nat)));
            }
        }
        now = now + (d as u64);
        r.push(now);
        k = k + 1;
    }
    r
}

} // verus!
