//! Fixed-point units shared by the whole controller.

use vstd::prelude::*;

verus! {

/// A camera scale factor of 1.0, in fixed-point micro-units.
pub const SCALE_ONE: u64 = 1_000_000;

/// The smallest positive representable scale: the floor that keeps the
/// camera from collapsing to a degenerate, invisible zero scale.
pub const SCALE_EPSILON: u64 = 1;

/// One second of animation time, in microseconds.
pub const MICROS_PER_SECOND: u64 = 1_000_000;

/// The default animation duration: ten seconds.
pub const DEFAULT_DURATION_MICROS: u64 = 10_000_000;

/// Upper bound on a configurable duration, chosen so that the fixed-point
/// progress computation `elapsed * SCALE_ONE` stays within `u64`.
pub const MAX_DURATION_MICROS: u64 = 1_000_000_000_000;

} // verus!
