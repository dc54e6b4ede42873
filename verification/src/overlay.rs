//! The overlay adapter: one numeric slider whose clamped value is read
//! once per frame and mapped to a direct camera scale, the fixed-point
//! reciprocal `1 / zoom`.

use vstd::prelude::*;

use crate::units::SCALE_ONE;

verus! {

/// Lowest zoom factor the overlay slider can select: fixed-point 1.0.
pub const MIN_ZOOM_FACTOR: u64 = 1_000_000;

/// Highest zoom factor the overlay slider can select: fixed-point 100.0.
pub const MAX_ZOOM_FACTOR: u64 = 100_000_000;

/// Smallest direct scale the slider can reach, at the highest zoom
/// factor: fixed-point 0.01.
pub const MIN_DIRECT_SCALE: u64 = 10_000;

/// The camera scale that a zoom factor maps to: the fixed-point
/// reciprocal `1 / zoom`.
pub open spec fn direct_scale_spec(zoom_factor: int) -> int
    recommends
        MIN_ZOOM_FACTOR <= zoom_factor,
{
    SCALE_ONE * SCALE_ONE / zoom_factor
}

/// A raw slider value clamped into the control's range.
pub open spec fn clamped_zoom_spec(raw: int) -> int {
    if raw < MIN_ZOOM_FACTOR {
        MIN_ZOOM_FACTOR as int
    } else if raw > MAX_ZOOM_FACTOR {
        MAX_ZOOM_FACTOR as int
    } else {
        raw
    }
}

/// The overlay's single numeric control, range-clamped by construction.
#[derive(Clone, Copy, Debug, PartialEq, Eq, Structural)]
pub struct OverlaySlider {
    /// The slider's current zoom factor, in fixed point.
    pub zoom_factor: u64,
}

impl OverlaySlider {
    /// The control's invariant: the value sits in the declared range.
    pub open spec fn wf(self) -> bool {
        MIN_ZOOM_FACTOR <= self.zoom_factor <= MAX_ZOOM_FACTOR
    }

    /// A fresh slider at the default zoom factor of 1.0.
    pub fn new() -> (s: OverlaySlider)
        ensures
            s.wf(),
            s.zoom_factor == MIN_ZOOM_FACTOR,
    {
        OverlaySlider { zoom_factor: MIN_ZOOM_FACTOR }
    }

    /// Sets the slider, clamping the raw value into the control's
    /// range; the control, not its readers, owns the clamping.
    pub fn set(&mut self, raw: u64)
        ensures
            final(self).wf(),
            final(self).zoom_factor == clamped_zoom_spec(raw as int),
    {
        if raw < MIN_ZOOM_FACTOR {
            self.zoom_factor = MIN_ZOOM_FACTOR;
        } else if raw > MAX_ZOOM_FACTOR {
            self.zoom_factor = MAX_ZOOM_FACTOR;
        } else {
            self.zoom_factor = raw;
        }
    }

    /// The direct camera scale for the slider's current value: exactly
    /// the fixed-point reciprocal of the zoom factor, always in
    /// `[MIN_DIRECT_SCALE, SCALE_ONE]` and so never zero.
    pub fn scale(&self) -> (s: u64)
        requires
            self.wf(),
        ensures
            s == direct_scale_spec(self.zoom_factor as int),
            MIN_DIRECT_SCALE <= s <= SCALE_ONE,
            self.zoom_factor == MIN_ZOOM_FACTOR ==> s == SCALE_ONE,
    {
        direct_scale(self.zoom_factor)
    }
}

/// The direct camera scale for an in-range zoom factor: the fixed-point
/// reciprocal `1 / zoom`, monotonically shrinking from `SCALE_ONE` at
/// zoom 1.0 down to `MIN_DIRECT_SCALE` at zoom 100.0.
pub fn direct_scale(zoom_factor: u64) -> (s: u64)
    requires
        MIN_ZOOM_FACTOR <= zoom_factor <= MAX_ZOOM_FACTOR,
    ensures
        s == direct_scale_spec(zoom_factor as int),
        MIN_DIRECT_SCALE <= s <= SCALE_ONE,
        zoom_factor == MIN_ZOOM_FACTOR ==> s == SCALE_ONE,
{
    let numerator = SCALE_ONE * SCALE_ONE;
    let s = numerator / zoom_factor;
    proof {
        vstd::arithmetic::div_mod::lemma_div_is_ordered_by_denominator(
            1_000_000_000_000,
            1_000_000,
            zoom_factor as int,
        );
        vstd::arithmetic::div_mod::lemma_div_is_ordered_by_denominator(
            1_000_000_000_000,
            zoom_factor as int,
            100_000_000,
        );
    }
    s
}

} // verus!
