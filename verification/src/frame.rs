//! Per-frame decisions: how one tick of the renderer reacts to the result
//! of acquiring the next presentable surface texture, and how the event
//! loop reacts to window events.
//!
//! The driver's own result types never reach this module; the shell maps
//! them to [`AcquireOutcome`] and [`WindowEvent`] and carries the returned
//! [`FrameAction`] and [`EventResponse`] back out.

use vstd::prelude::*;

verus! {

/// The outcome of asking the surface for its next presentable texture.
#[derive(Clone, Copy, Debug, PartialEq, Eq, Structural)]
pub enum AcquireOutcome {
    /// A texture was acquired; the frame can be drawn.
    Acquired,
    /// The surface was lost; it must be reconfigured.
    Lost,
    /// The surface no longer matches the window; it must be reconfigured.
    Outdated,
    /// The driver is out of memory; rendering cannot continue.
    OutOfMemory,
    /// Acquisition timed out this tick.
    Timeout,
}

/// What the shell must do with the frame after acquisition.
#[derive(Clone, Copy, Debug, PartialEq, Eq, Structural)]
pub enum FrameAction {
    /// Record the render pass, submit it, and present.
    Render,
    /// Reapply the surface configuration with the given size and abandon
    /// this frame.
    Reconfigure { width: u32, height: u32 },
    /// Abandon this frame (after logging); retry on the next tick.
    Skip,
    /// Stop the event loop.
    Exit,
}

/// The action owed for an acquisition outcome, given the last known window
/// size: draw on success, reconfigure-and-skip on a lost or outdated
/// surface, stop on exhausted memory, skip on a timeout.
pub open spec fn action_for(outcome: AcquireOutcome, width: u32, height: u32) -> FrameAction {
    match outcome {
        AcquireOutcome::Acquired => FrameAction::Render,
        AcquireOutcome::Lost => FrameAction::Reconfigure { width, height },
        AcquireOutcome::Outdated => FrameAction::Reconfigure { width, height },
        AcquireOutcome::OutOfMemory => FrameAction::Exit,
        AcquireOutcome::Timeout => FrameAction::Skip,
    }
}

/// Fatal-error law: of all acquisition outcomes, exactly `OutOfMemory`
/// stops the loop, and a frame is drawn exactly on success.
pub proof fn lemma_action_classification(outcome: AcquireOutcome, width: u32, height: u32)
    ensures
        action_for(outcome, width, height) == FrameAction::Exit <==> outcome
            == AcquireOutcome::OutOfMemory,
        action_for(outcome, width, height) == FrameAction::Render <==> outcome
            == AcquireOutcome::Acquired,
        (action_for(outcome, width, height) matches FrameAction::Reconfigure { .. }) <==> (outcome
            == AcquireOutcome::Lost || outcome == AcquireOutcome::Outdated),
{
}

/// A key press, reduced to what the input mapping distinguishes.
#[derive(Clone, Copy, Debug, PartialEq, Eq, Structural)]
pub enum PressedKey {
    Escape,
    Other,
}

/// A window-system event, as the event loop sees it.
#[derive(Clone, Copy, Debug, PartialEq, Eq, Structural)]
pub enum WindowEvent {
    /// The user asked to close the window.
    CloseRequested,
    /// A key was pressed.
    KeyPressed(PressedKey),
    /// The window was resized.
    Resized { width: u32, height: u32 },
    /// The scale factor changed, carrying the new physical size.
    ScaleFactorChanged { width: u32, height: u32 },
    /// Any other event; ignored by design.
    Other,
}

/// What the shell must do after a window event is applied.
#[derive(Clone, Copy, Debug, PartialEq, Eq, Structural)]
pub enum EventResponse {
    /// Stop the event loop.
    Exit,
    /// The stored configuration changed: reapply it to the surface.
    Configure,
    /// Nothing to do.
    Ignore,
}

/// The response owed for a window event: close requests and the escape key
/// stop the loop, a resize with positive dimensions is applied to the
/// surface, everything else is ignored.
pub open spec fn response_for(event: WindowEvent) -> EventResponse {
    match event {
        WindowEvent::CloseRequested => EventResponse::Exit,
        WindowEvent::KeyPressed(k) => if k == PressedKey::Escape {
            EventResponse::Exit
        } else {
            EventResponse::Ignore
        },
        WindowEvent::Resized { width, height } => if width > 0 && height > 0 {
            EventResponse::Configure
        } else {
            EventResponse::Ignore
        },
        WindowEvent::ScaleFactorChanged { width, height } => if width > 0 && height > 0 {
            EventResponse::Configure
        } else {
            EventResponse::Ignore
        },
        WindowEvent::Other => EventResponse::Ignore,
    }
}

} // verus!
