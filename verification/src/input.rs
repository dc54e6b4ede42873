//! The input adapter: turns the frame's batch of keyboard events into
//! the timer's start trigger. Only the release of the trigger key while
//! `Idle` starts the animation; everything else is ignored, and several
//! qualifying releases in one frame fire the transition only once.

use vstd::prelude::*;

use crate::timer::{ZoomPhase, ZoomTimer};

verus! {

/// Key identity, as far as the zoom controller cares: the one key whose
/// release starts the animation, or any other key.
#[derive(Clone, Copy, Debug, PartialEq, Eq, Structural)]
pub enum KeyCode {
    /// The trigger key.
    KeyS,
    /// Any key that the controller ignores.
    OtherKey,
}

/// Press/release state of a keyboard event.
#[derive(Clone, Copy, Debug, PartialEq, Eq, Structural)]
pub enum ButtonState {
    Pressed,
    Released,
}

/// One keyboard event delivered by the host for the current frame.
#[derive(Clone, Copy, Debug, PartialEq, Eq, Structural)]
pub struct KeyEvent {
    pub key: KeyCode,
    pub state: ButtonState,
}

/// Whether an event is a release of the trigger key.
pub open spec fn is_trigger_release(e: KeyEvent) -> bool {
    e.key == KeyCode::KeyS && e.state == ButtonState::Released
}

/// Whether the frame's event batch holds a release of the trigger key.
pub open spec fn has_trigger_release(events: Seq<KeyEvent>) -> bool {
    exists|i: int| 0 <= i < events.len() && is_trigger_release(events[i])
}

/// Drains the frame's keyboard events into the timer: the timer is
/// triggered exactly when the batch holds a release of the trigger key,
/// and is otherwise untouched. Repeated releases in one batch fire the
/// transition at most once, and releases of other keys, presses, or
/// events outside `Idle` change nothing.
pub fn start_timer(timer: &mut ZoomTimer, events: &Vec<KeyEvent>)
    requires
        old(timer).wf(),
    ensures
        final(timer).wf(),
        final(timer).elapsed_micros == old(timer).elapsed_micros,
        final(timer).duration_micros == old(timer).duration_micros,
        has_trigger_release(events@) ==> *final(timer) == old(timer).triggered(),
        !has_trigger_release(events@) ==> *final(timer) == *old(timer),
        old(timer).phase() != ZoomPhase::Idle ==> *final(timer) == *old(timer),
{
    let mut i: usize = 0;
    while i < events.len()
        invariant
            old(timer).wf(),
            timer.wf(),
            i <= events.len(),
            has_trigger_release(events@.take(i as int)) ==> *timer == old(timer).triggered(),
            !has_trigger_release(events@.take(i as int)) ==> *timer == *old(timer),
        decreases events.len() - i,
    {
        let e = events[i];
        proof {
            assert(events@.take(i as int + 1) =~= events@.take(i as int).push(events@[i as int]));
        }
        if e.key == KeyCode::KeyS && e.state == ButtonState::Released {
            timer.trigger();
            proof {
                assert(events@.take(i as int + 1)[i as int] == events@[i as int]);
                assert(has_trigger_release(events@.take(i as int + 1)));
            }
        } else {
            proof {
                if has_trigger_release(events@.take(i as int + 1)) {
                    let j = choose|j: int|
                        0 <= j < events@.take(i as int + 1).len() && #[trigger] is_trigger_release(
                            events@.take(i as int + 1)[j],
                        );
                    assert(is_trigger_release(events@.take(i as int)[j]));
                    assert(has_trigger_release(events@.take(i as int)));
                }
            }
        }
        i = i + 1;
    }
    proof {
        assert(events@.take(events@.len() as int) =~= events@);
    }
}

} // verus!
