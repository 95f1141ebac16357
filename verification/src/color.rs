//! Severity color for a usage gauge.
//!
//! A percentage below 50% is low (green), from 50% up to but not
//! including 80% is medium (yellow), and 80% or above is high (red).

use vstd::prelude::*;

verus! {

/// Severity color of a usage percentage, as shown on a gauge.
#[derive(Clone, Copy, Debug, PartialEq, Eq, Structural)]
pub enum UsageColor {
    Green,
    Yellow,
    Red,
}

/// Threshold, in milli-percent, at which a usage value stops being low.
pub const MEDIUM_THRESHOLD_MILLI: u64 = 50_000;

/// Threshold, in milli-percent, at which a usage value becomes high.
pub const HIGH_THRESHOLD_MILLI: u64 = 80_000;

/// Severity color for a usage value given in milli-percent.
pub open spec fn spec_color_for(usage_milli_percent: u64) -> UsageColor {
    if usage_milli_percent < MEDIUM_THRESHOLD_MILLI {
        UsageColor::Green
    } else if usage_milli_percent < HIGH_THRESHOLD_MILLI {
        UsageColor::Yellow
    } else {
        UsageColor::Red
    }
}

/// Severity color for a usage value given in milli-percent.
///
/// The bands are closed-open on the lower bound: exactly 50% is
/// yellow and exactly 80% is red.
pub fn color_for(usage_milli_percent: u64) -> (c: UsageColor)
    ensures
        c == spec_color_for(usage_milli_percent),
        c == UsageColor::Green <==> usage_milli_percent < MEDIUM_THRESHOLD_MILLI,
        c == UsageColor::Yellow <==> (MEDIUM_THRESHOLD_MILLI <= usage_milli_percent
            && usage_milli_percent < HIGH_THRESHOLD_MILLI),
        c == UsageColor::Red <==> usage_milli_percent >= HIGH_THRESHOLD_MILLI,
{
    if usage_milli_percent < MEDIUM_THRESHOLD_MILLI {
        UsageColor::Green
    } else if usage_milli_percent < HIGH_THRESHOLD_MILLI {
        UsageColor::Yellow
    } else {
        UsageColor::Red
    }
}

} // verus!
