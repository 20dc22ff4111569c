//! Calibrated analog sampling.
//!
//! A one-shot read of the internal reference channel calibrates the scale;
//! afterwards every raw conversion of an external pin is turned into
//! millivolts with the fixed linear formula `raw * VREFINT_MV / reference`.
//! A zero reference sample would divide by zero, so a calibration can only
//! be built from a positive reference read.

use vstd::prelude::*;

verus! {

/// Nominal voltage of the internal reference channel, in millivolts.
pub const VREFINT_MV: u32 = 1210;

/// The millivolt value of a raw conversion `raw`, scaled against the
/// calibration read `vref_raw` of the internal reference channel.
pub open spec fn spec_millivolts(raw: u16, vref_raw: u16) -> int
    recommends
        vref_raw > 0,
{
    (raw as int) * (VREFINT_MV as int) / (vref_raw as int)
}

/// A completed calibration of the analog-to-digital converter: the raw code
/// the converter reported for the internal reference channel.
pub struct Calibration {
    vrefint_sample: u16,
}

impl Calibration {
    /// The raw reference read this calibration was built from.
    pub closed spec fn vref_raw(&self) -> u16 {
        self.vrefint_sample
    }

    /// A calibration is well formed when its reference read is positive,
    /// so that scaling by it never divides by zero.
    pub open spec fn wf(&self) -> bool {
        self.vref_raw() > 0
    }

    /// Builds a calibration from a raw read of the internal reference
    /// channel. A zero read is a fatal configuration fault and is rejected.
    pub fn from_reference_sample(vrefint_sample: u16) -> (r: Option<Calibration>)
        ensures
            r is Some <==> vrefint_sample > 0,
            r matches Some(c) ==> c.wf() && c.vref_raw() == vrefint_sample,
    {
        if vrefint_sample == 0 {
            None
        } else {
            Some(Calibration { vrefint_sample })
        }
    }

    /// The raw reference read this calibration was built from.
    pub fn reference_sample(&self) -> (r: u16)
        ensures
            r == self.vref_raw(),
    {
        self.vrefint_sample
    }

    /// Converts one raw conversion result to millivolts.
    pub fn to_millivolts(&self, raw: u16) -> (mv: u32)
        requires
            self.wf(),
        ensures
            mv == spec_millivolts(raw, self.vref_raw()),
    {
        (raw as u32) * VREFINT_MV / (self.vrefint_sample as u32)
    }
}

/// The start-up delay to wait before the calibration read: the larger of
/// the two channels' start-up latencies, in microseconds.
pub fn startup_delay_us(a: u32, b: u32) -> (r: u32)
    ensures
        r == if a >= b { a as int } else { b as int },
        r >= a,
        r >= b,
{
    if a >= b {
        a
    } else {
        b
    }
}

} // verus!
