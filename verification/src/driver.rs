//! The event loop's verified core.
//!
//! The shell owns the real window-system loop; every decision it takes per
//! event or per frame tick goes through this driver. The driver also owns
//! the stop flag: after a close request, the escape key, or a fatal
//! acquisition error, every later call is a no-op — no further events or
//! frames are processed.
//!
//! A frame tick runs in three steps, mirroring the unverified work between
//! them: [`RunLoop::begin_frame`] advances the animation and hands out the
//! new phases, the shell takes their sines and stores the derived offset
//! via [`RunLoop::set_offset`] and writes it to the uniform buffer, then
//! acquires the surface texture and hands the outcome to
//! [`RunLoop::complete_frame`], which says whether to draw, reconfigure,
//! skip, or stop. The animation thus advances every tick, even when the
//! frame is abandoned after a recoverable acquisition failure.

use vstd::prelude::*;
use crate::animation::UNIT_SCALE;
use crate::frame::{
    action_for, response_for, AcquireOutcome, EventResponse, FrameAction, WindowEvent,
};
use crate::state::State;
use crate::uniform::offset_of_sine;

verus! {

/// The loop state: the render state plus whether a stop was requested.
#[derive(Clone, Copy, Debug, PartialEq, Eq)]
pub struct RunLoop {
    pub state: State,
    pub exiting: bool,
}

impl RunLoop {
    pub open spec fn wf(self) -> bool {
        self.state.wf()
    }

    /// Wrap a freshly built render state; the loop starts running.
    pub fn new(state: State) -> (r: RunLoop)
        requires
            state.wf(),
        ensures
            r.state == state,
            !r.exiting,
            r.wf(),
    {
        RunLoop { state, exiting: false }
    }

    /// Feed one window event through the input hook and the loop's event
    /// mapping. Once a stop was requested nothing is processed.
    pub fn window_event(&mut self, event: &WindowEvent) -> (r: EventResponse)
        requires
            old(self).wf(),
        ensures
            final(self).wf(),
            old(self).exiting ==> *final(self) == *old(self) && r == EventResponse::Ignore,
            !old(self).exiting ==> {
                &&& final(self).state == old(self).state.after_event(*event)
                &&& r == response_for(*event)
                &&& final(self).exiting == (response_for(*event) == EventResponse::Exit)
            },
    {
        if self.exiting {
            return EventResponse::Ignore;
        }
        if self.state.input(event) {
            return EventResponse::Ignore;
        }
        let r = self.state.handle_window_event(event);
        if matches!(r, EventResponse::Exit) {
            self.exiting = true;
        }
        r
    }

    /// Begin a frame tick: advance the animation and hand out the new
    /// phases, or `None` when the loop is stopping.
    pub fn begin_frame(&mut self) -> (r: Option<(i64, i64)>)
        requires
            old(self).wf(),
        ensures
            final(self).wf(),
            final(self).exiting == old(self).exiting,
            old(self).exiting ==> *final(self) == *old(self) && r is None,
            !old(self).exiting ==> {
                &&& final(self).state.water_stats == old(self).state.water_stats.advanced()
                &&& final(self).state.config == old(self).state.config
                &&& final(self).state.size == old(self).state.size
                &&& final(self).state.offset_uniform == old(self).state.offset_uniform
                &&& final(self).state.num_indices == old(self).state.num_indices
                &&& r == Some((final(self).state.water_stats.x, final(self).state.water_stats.y))
            },
    {
        if self.exiting {
            return None;
        }
        let phases = self.state.update_animation();
        Some(phases)
    }

    /// Store the offset derived from the sines of the phases that
    /// [`Self::begin_frame`] handed out; the shell then writes the uniform
    /// to its GPU buffer.
    pub fn set_offset(&mut self, sin_x: i64, sin_y: i64)
        requires
            old(self).wf(),
            -UNIT_SCALE <= sin_x <= UNIT_SCALE,
            -UNIT_SCALE <= sin_y <= UNIT_SCALE,
        ensures
            final(self).wf(),
            final(self).exiting == old(self).exiting,
            old(self).exiting ==> *final(self) == *old(self),
            !old(self).exiting ==> {
                &&& final(self).state.offset_uniform.offset.0 == offset_of_sine(sin_x as int)
                &&& final(self).state.offset_uniform.offset.1 == offset_of_sine(sin_y as int)
                &&& final(self).state.offset_uniform.memory_alignment_offset == (0i64, 0i64)
                &&& final(self).state.config == old(self).state.config
                &&& final(self).state.size == old(self).state.size
                &&& final(self).state.water_stats == old(self).state.water_stats
                &&& final(self).state.num_indices == old(self).state.num_indices
            },
    {
        if self.exiting {
            return;
        }
        self.state.update_offset(sin_x, sin_y);
    }

    /// Finish the tick with the acquisition outcome: classify it into the
    /// owed action, apply the reconfiguration with the last known size on a
    /// lost or outdated surface, and stop the loop when the driver ran out
    /// of memory. Once stopping, every tick is a skipped no-op.
    pub fn complete_frame(&mut self, outcome: AcquireOutcome) -> (a: FrameAction)
        requires
            old(self).wf(),
        ensures
            final(self).wf(),
            old(self).exiting ==> *final(self) == *old(self) && a == FrameAction::Skip,
            !old(self).exiting ==> {
                &&& a == action_for(
                    outcome,
                    old(self).state.size.width,
                    old(self).state.size.height,
                )
                &&& final(self).exiting == (outcome == AcquireOutcome::OutOfMemory)
                &&& final(self).state == if outcome == AcquireOutcome::Lost || outcome
                    == AcquireOutcome::Outdated {
                    old(self).state.spec_resized(
                        old(self).state.size.width,
                        old(self).state.size.height,
                    )
                } else {
                    old(self).state
                }
            },
    {
        if self.exiting {
            return FrameAction::Skip;
        }
        let a = self.state.frame_action(outcome);
        match a {
            FrameAction::Reconfigure { width, height } => {
                let _ = self.state.resize(width, height);
            },
            FrameAction::Exit => {
                self.exiting = true;
            },
            _ => {},
        }
        a
    }
}

} // verus!
