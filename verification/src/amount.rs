//! Fixed-point measurements.
//!
//! Upstream weather payloads carry temperatures, wind speeds and
//! precipitation amounts with a fractional part.  The pipeline never
//! computes with the fraction: it carries the value through unchanged
//! and truncates toward zero only when rendering.  An [`Amount`] holds
//! such a value exactly, as a sign and a magnitude in thousandths of a
//! unit, which is finer than the upstream source ever reports.

use vstd::prelude::*;

verus! {

/// A signed fixed-point number with three fractional digits:
/// the value is `-(milli / 1000)` when `neg` is set, `milli / 1000`
/// otherwise.
#[derive(Clone, Copy, PartialEq, Eq, Structural, Debug)]
pub struct Amount {
    /// True when the value is strictly below zero.
    pub neg: bool,
    /// Magnitude in thousandths of a unit.
    pub milli: u64,
}

impl Amount {
    /// The represented value, in thousandths of a unit.
    pub open spec fn value_milli(self) -> int {
        if self.neg {
            -(self.milli as int)
        } else {
            self.milli as int
        }
    }

    /// Canonical form: zero is never marked negative, so equal values
    /// are equal records.
    pub open spec fn wf(self) -> bool {
        self.neg ==> self.milli > 0
    }

    /// Whole units, truncated toward zero; this is the only reading of
    /// an `Amount` that rendering ever uses.
    pub open spec fn trunc(self) -> int {
        if self.neg {
            -((self.milli / 1000) as int)
        } else {
            (self.milli / 1000) as int
        }
    }

    /// Builds a canonical `Amount` from a sign and a magnitude in
    /// thousandths.
    pub fn new(neg: bool, milli: u64) -> (r: Amount)
        ensures
            r.wf(),
            r.milli == milli,
            r.neg == (neg && milli > 0),
            r.value_milli() == if neg { -(milli as int) } else { milli as int },
    {
        Amount { neg: neg && milli > 0, milli }
    }

    /// Builds an `Amount` holding exactly `units` whole units.
    pub fn from_units(units: u64) -> (r: Amount)
        requires
            units <= u64::MAX / 1000,
        ensures
            r.wf(),
            r.value_milli() == units * 1000,
            r.trunc() == units,
    {
        Amount { neg: false, milli: units * 1000 }
    }

    /// The truncated magnitude and whether the truncated value is
    /// below zero.
    pub fn trunc_parts(self) -> (r: (bool, u64))
        ensures
            r.1 == self.milli / 1000,
            r.0 == self.neg,
            self.trunc() == if r.0 { -(r.1 as int) } else { r.1 as int },
    {
        (self.neg, self.milli / 1000)
    }
}

} // verus!
