//! The per-frame update: fixed-point animation progress, the scale the
//! frame dictates, and the write-back into the camera's transform, in
//! the required order — drain input, advance the timer, then write the
//! scale. A missing camera makes the write a silent no-op, never a
//! crash.

use vstd::prelude::*;

use crate::easing::{animation_scale, scale_spec};
use crate::input::{has_trigger_release, start_timer, KeyEvent};
use crate::scene::CameraState;
use crate::timer::ZoomTimer;
use crate::units::{SCALE_EPSILON, SCALE_ONE};

verus! {

/// Fixed-point progress of the animation through `[0, SCALE_ONE]`:
/// elapsed time over duration.
pub open spec fn progress_spec(t: ZoomTimer) -> int
    recommends
        t.wf(),
{
    t.elapsed_micros * SCALE_ONE / (t.duration_micros as int)
}

/// The camera scale the controller writes for a timer state.
pub open spec fn frame_scale_spec(t: ZoomTimer) -> int
    recommends
        t.wf(),
{
    scale_spec(progress_spec(t))
}

/// The camera slot after the frame's write-back: the scale updated
/// where a camera exists, nothing touched otherwise.
pub open spec fn written_back(camera: Option<CameraState>, t: ZoomTimer) -> Option<CameraState>
    recommends
        t.wf(),
{
    match camera {
        None => None,
        Some(c) => Some(CameraState { scale: frame_scale_spec(t) as u64, ..c }),
    }
}

/// The animation's fixed-point progress: 0 when fresh, `SCALE_ONE` once
/// the duration is reached, in between while animating.
pub fn progress(timer: &ZoomTimer) -> (t: u64)
    requires
        timer.wf(),
    ensures
        t == progress_spec(*timer),
        t <= SCALE_ONE,
        timer.elapsed_micros == 0 ==> t == 0,
        timer.elapsed_micros == timer.duration_micros ==> t == SCALE_ONE,
{
    let numerator = timer.elapsed_micros * SCALE_ONE;
    let t = numerator / timer.duration_micros;
    proof {
        vstd::arithmetic::div_mod::lemma_div_multiples_vanish(
            SCALE_ONE as int,
            timer.duration_micros as int,
        );
        vstd::arithmetic::div_mod::lemma_div_is_ordered(
            numerator as int,
            timer.duration_micros * SCALE_ONE,
            timer.duration_micros as int,
        );
    }
    t
}

/// Computes the scale the frame dictates and writes it into the
/// camera's transform. A missed camera lookup is tolerated as a silent
/// no-op: the function never fails and touches nothing in that case.
/// Where a camera exists, only its scale changes, and the new scale is
/// always in `[SCALE_EPSILON, SCALE_ONE]` — never zero.
pub fn zoom(timer: &ZoomTimer, camera: &mut Option<CameraState>) -> (wrote: bool)
    requires
        timer.wf(),
    ensures
        *final(camera) == written_back(*old(camera), *timer),
        *old(camera) is None ==> *final(camera) == *old(camera),
        wrote == (*old(camera) is Some),
        *final(camera) matches Some(c) ==> SCALE_EPSILON <= c.scale <= SCALE_ONE,
{
    let t = progress(timer);
    let s = animation_scale(t);
    match camera {
        None => false,
        Some(c) => {
            c.scale = s;
            true
        },
    }
}

/// Advances the whole controller by one frame, strictly in the required
/// order: the input events are drained and may start the timer, the
/// timer is advanced by the frame's delta, and the freshly computed
/// scale is written into the camera — a silent no-op when the camera
/// lookup missed.
pub fn frame_update(
    timer: &mut ZoomTimer,
    events: &Vec<KeyEvent>,
    delta_micros: u64,
    camera: &mut Option<CameraState>,
)
    requires
        old(timer).wf(),
    ensures
        final(timer).wf(),
        has_trigger_release(events@) ==> *final(timer) == old(timer).triggered().ticked(
            delta_micros,
        ),
        !has_trigger_release(events@) ==> *final(timer) == old(timer).ticked(delta_micros),
        *final(camera) == written_back(*old(camera), *final(timer)),
        *old(camera) is None ==> *final(camera) == *old(camera),
{
    start_timer(timer, events);
    timer.tick(delta_micros);
    zoom(timer, camera);
}

} // verus!
