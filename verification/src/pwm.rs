//! The PWM actuator.
//!
//! Each channel owns its timer's frequency and period, so two channels can
//! run at different frequencies without interference. A duty command —
//! a percentage, an exact fraction, or fully off — is clamped into the
//! channel's representable range and takes effect only at the next period
//! boundary: the duty visible on the output never changes mid-period, so
//! no half-period glitch is possible. Out-of-range commands are clamped,
//! never rejected.

use vstd::prelude::*;

verus! {

/// The duty commanded by `set_duty_percent`: `pct` of the maximum duty,
/// rounded down, with percentages above 100 clamped to 100.
pub open spec fn spec_percent_duty(max: u16, pct: u8) -> int {
    (max as int) * (if pct > 100 {
        100int
    } else {
        pct as int
    }) / 100
}

/// The duty commanded by `set_duty_fraction`: `num / den` of the maximum
/// duty, rounded down and clamped to the maximum.
pub open spec fn spec_fraction_duty(max: u16, num: u32, den: u32) -> int
    recommends
        den > 0,
{
    let raw = (num as int) * (max as int) / (den as int);
    if raw > max {
        max as int
    } else {
        raw
    }
}

/// One PWM output channel, with the frequency and period of the timer
/// that drives it.
pub struct PwmChannel {
    freq_hz: u32,
    max_duty: u16,
    applied: u16,
    pending: u16,
    enabled: bool,
}

impl PwmChannel {
    /// The frequency the channel's timer runs at, in hertz.
    pub closed spec fn frequency_hz(&self) -> u32 {
        self.freq_hz
    }

    /// The largest representable duty value of this channel.
    pub closed spec fn max_duty(&self) -> u16 {
        self.max_duty
    }

    /// The duty driving the output during the current period.
    pub closed spec fn applied_duty(&self) -> u16 {
        self.applied
    }

    /// The duty that will drive the output from the next period boundary.
    pub closed spec fn pending_duty(&self) -> u16 {
        self.pending
    }

    /// Whether the channel's output is enabled.
    pub closed spec fn is_enabled(&self) -> bool {
        self.enabled
    }

    /// Both the applied and the pending duty stay within the channel's
    /// representable range, and the timer runs at a positive frequency.
    pub open spec fn wf(&self) -> bool {
        &&& self.applied_duty() <= self.max_duty()
        &&& self.pending_duty() <= self.max_duty()
        &&& self.max_duty() >= 1
        &&& self.frequency_hz() >= 1
    }

    /// Creates a disabled channel at duty zero. A zero frequency or a zero
    /// maximum duty is an invalid timer configuration and is rejected.
    pub fn new(freq_hz: u32, max_duty: u16) -> (r: Option<PwmChannel>)
        ensures
            r is Some <==> freq_hz >= 1 && max_duty >= 1,
            r matches Some(c) ==> {
                &&& c.wf()
                &&& c.frequency_hz() == freq_hz
                &&& c.max_duty() == max_duty
                &&& c.applied_duty() == 0
                &&& c.pending_duty() == 0
                &&& !c.is_enabled()
            },
    {
        if freq_hz >= 1 && max_duty >= 1 {
            Some(PwmChannel { freq_hz, max_duty, applied: 0, pending: 0, enabled: false })
        } else {
            None
        }
    }

    /// The duty driving the output during the current period.
    pub fn current_duty(&self) -> (d: u16)
        ensures
            d == self.applied_duty(),
    {
        self.applied
    }

    /// The duty that will drive the output from the next period boundary.
    pub fn commanded_duty(&self) -> (d: u16)
        ensures
            d == self.pending_duty(),
    {
        self.pending
    }

    /// The largest representable duty value of this channel.
    pub fn max_duty_cycle(&self) -> (d: u16)
        ensures
            d == self.max_duty(),
    {
        self.max_duty
    }

    /// The frequency the channel's timer runs at, in hertz.
    pub fn frequency(&self) -> (f: u32)
        ensures
            f == self.frequency_hz(),
    {
        self.freq_hz
    }

    /// Whether the channel's output is enabled.
    pub fn enabled(&self) -> (e: bool)
        ensures
            e == self.is_enabled(),
    {
        self.enabled
    }

    /// Enables the channel's output.
    pub fn enable(&mut self)
        requires
            old(self).wf(),
        ensures
            final(self).wf(),
            final(self).is_enabled(),
            final(self).frequency_hz() == old(self).frequency_hz(),
            final(self).max_duty() == old(self).max_duty(),
            final(self).applied_duty() == old(self).applied_duty(),
            final(self).pending_duty() == old(self).pending_duty(),
    {
        self.enabled = true;
    }

    /// Disables the channel's output.
    pub fn disable(&mut self)
        requires
            old(self).wf(),
        ensures
            final(self).wf(),
            !final(self).is_enabled(),
            final(self).frequency_hz() == old(self).frequency_hz(),
            final(self).max_duty() == old(self).max_duty(),
            final(self).applied_duty() == old(self).applied_duty(),
            final(self).pending_duty() == old(self).pending_duty(),
    {
        self.enabled = false;
    }

    /// Commands a duty of `pct` percent of the maximum. Values above 100
    /// are clamped to 100. The command takes effect at the next period
    /// boundary; the current period's output is untouched.
    pub fn set_duty_percent(&mut self, pct: u8)
        requires
            old(self).wf(),
        ensures
            final(self).wf(),
            final(self).pending_duty() == spec_percent_duty(old(self).max_duty(), pct),
            final(self).applied_duty() == old(self).applied_duty(),
            final(self).frequency_hz() == old(self).frequency_hz(),
            final(self).max_duty() == old(self).max_duty(),
            final(self).is_enabled() == old(self).is_enabled(),
    {
        let clamped: u32 = if pct > 100 {
            100
        } else {
            pct as u32
        };
        proof {
            assert((self.max_duty as int) * (clamped as int) <= (self.max_duty as int) * 100)
                by (nonlinear_arith)
                requires
                    clamped <= 100,
                    self.max_duty >= 0,
            ;
            assert((self.max_duty as int) * (clamped as int) / 100 <= (self.max_duty as int) * 100
                / 100) by {
                vstd::arithmetic::div_mod::lemma_div_is_ordered(
                    (self.max_duty as int) * (clamped as int),
                    (self.max_duty as int) * 100,
                    100,
                );
            }
        }
        let duty: u32 = (self.max_duty as u32) * clamped / 100;
        self.pending = duty as u16;
    }

    /// Commands a duty of `num / den` of the maximum, rounded down and
    /// clamped to the maximum. The command takes effect at the next period
    /// boundary; the current period's output is untouched.
    pub fn set_duty_fraction(&mut self, num: u32, den: u32)
        requires
            old(self).wf(),
            den > 0,
        ensures
            final(self).wf(),
            final(self).pending_duty() == spec_fraction_duty(old(self).max_duty(), num, den),
            final(self).applied_duty() == old(self).applied_duty(),
            final(self).frequency_hz() == old(self).frequency_hz(),
            final(self).max_duty() == old(self).max_duty(),
            final(self).is_enabled() == old(self).is_enabled(),
    {
        proof {
            assert((num as int) * (self.max_duty as int) <= 0xFFFF_FFFF * 0xFFFF)
                by (nonlinear_arith)
                requires
                    num <= 0xFFFF_FFFF,
                    self.max_duty <= 0xFFFF,
            ;
            assert((num as int) * (self.max_duty as int) >= 0) by (nonlinear_arith)
                requires
                    num >= 0,
                    self.max_duty >= 0,
            ;
            vstd::arithmetic::div_mod::lemma_div_pos_is_pos(
                (num as int) * (self.max_duty as int),
                den as int,
            );
        }
        let raw: u64 = (num as u64) * (self.max_duty as u64) / (den as u64);
        let duty: u16 = if raw > self.max_duty as u64 {
            self.max_duty
        } else {
            raw as u16
        };
        self.pending = duty;
    }

    /// Commands the output fully off, whatever duty was set before. The
    /// command takes effect at the next period boundary.
    pub fn set_fully_off(&mut self)
        requires
            old(self).wf(),
        ensures
            final(self).wf(),
            final(self).pending_duty() == 0,
            final(self).applied_duty() == old(self).applied_duty(),
            final(self).frequency_hz() == old(self).frequency_hz(),
            final(self).max_duty() == old(self).max_duty(),
            final(self).is_enabled() == old(self).is_enabled(),
    {
        self.pending = 0;
    }

    /// The period boundary: the pending command becomes the applied duty.
    /// This is the only point where the output's duty changes.
    pub fn advance_period(&mut self)
        requires
            old(self).wf(),
        ensures
            final(self).wf(),
            final(self).applied_duty() == old(self).pending_duty(),
            final(self).pending_duty() == old(self).pending_duty(),
            final(self).frequency_hz() == old(self).frequency_hz(),
            final(self).max_duty() == old(self).max_duty(),
            final(self).is_enabled() == old(self).is_enabled(),
    {
        self.applied = self.pending;
    }
}

/// Duty-clamp law: every fraction with a positive denominator commands a
/// duty within [0, max]; percent 0 and percent 100 command the two
/// extremes exactly.
pub proof fn lemma_duty_clamp(max: u16, num: u32, den: u32)
    requires
        den > 0,
    ensures
        0 <= spec_fraction_duty(max, num, den) <= max,
        spec_percent_duty(max, 0) == 0,
        spec_percent_duty(max, 100) == max,
{
    assert((num as int) * (max as int) >= 0) by (nonlinear_arith)
        requires
            num >= 0,
            max >= 0,
    ;
    vstd::arithmetic::div_mod::lemma_div_pos_is_pos((num as int) * (max as int), den as int);
    assert((max as int) * 100 / 100 == max) by (nonlinear_arith);
    assert((max as int) * 0 / 100 == 0);
}

} // verus!
