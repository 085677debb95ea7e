//! The render state: the one aggregate the event loop owns and mutates.
//!
//! This is the verified counterpart of the value that holds the GPU
//! context, the pipeline resources and the animation state. GPU handles
//! (device, queue, buffers, bind groups, pipeline) live in the unverified
//! shell; everything the per-frame decisions read or write lives here.

use vstd::prelude::*;
use crate::animation::{INITIAL_SPEED, TAU_UNITS, UNIT_SCALE, WaterStats};
use crate::frame::{action_for, response_for, AcquireOutcome, EventResponse, FrameAction, WindowEvent};
use crate::geometry::INDEX_COUNT;
use crate::surface::{resized, SurfaceConfig, SurfaceFormat};
use crate::uniform::{offset_of_sine, OffsetUniform};

verus! {

/// The window size requested at startup, in physical pixels: fixed, not
/// configurable.
pub const INITIAL_WIDTH: u32 = 1024;

/// See [`INITIAL_WIDTH`].
pub const INITIAL_HEIGHT: u32 = 604;

/// A window size in physical pixels.
#[derive(Clone, Copy, Debug, PartialEq, Eq, Structural)]
pub struct Extent {
    pub width: u32,
    pub height: u32,
}

/// Everything the per-frame logic owns: the surface configuration, the last
/// known window size, the animation state, the uniform contents, and the
/// index count of the static geometry.
#[derive(Clone, Copy, Debug, PartialEq, Eq)]
pub struct State {
    pub config: SurfaceConfig,
    pub size: Extent,
    pub water_stats: WaterStats,
    pub offset_uniform: OffsetUniform,
    pub num_indices: u32,
}

impl State {
    /// The standing invariant: the configuration is well-formed and agrees
    /// with the last known size, the animation and uniform invariants hold,
    /// and the index count is that of the quad.
    pub open spec fn wf(self) -> bool {
        &&& self.config.wf()
        &&& self.size.width == self.config.width
        &&& self.size.height == self.config.height
        &&& self.water_stats.wf()
        &&& self.offset_uniform.wf()
        &&& self.num_indices == INDEX_COUNT
    }

    /// Build the initial state from the advertised surface capabilities and
    /// the requested window size: negotiated configuration, the fixed
    /// initial animation (speed 0.02, direction `(-1, -1)`, phases zero),
    /// and a zeroed uniform.
    pub fn new(
        formats: &Vec<SurfaceFormat>,
        present_modes: &Vec<u32>,
        alpha_modes: &Vec<u32>,
        width: u32,
        height: u32,
    ) -> (r: State)
        requires
            formats@.len() > 0,
            present_modes@.len() > 0,
            alpha_modes@.len() > 0,
            width > 0,
            height > 0,
        ensures
            r.wf(),
            r.config.width == width,
            r.config.height == height,
            r.config.present_mode == present_modes@[0],
            r.config.alpha_mode == alpha_modes@[0],
            crate::surface::has_srgb(formats@) ==> exists|i: int|
                0 <= i < formats@.len() && formats@[i].srgb && r.config.format == formats@[i] && (
                forall|j: int| 0 <= j < i ==> !formats@[j].srgb),
            !crate::surface::has_srgb(formats@) ==> r.config.format == formats@[0],
            r.size == (Extent { width, height }),
            r.water_stats == (WaterStats {
                speed: INITIAL_SPEED,
                dir_x: -1i64,
                dir_y: -1i64,
                x: 0i64,
                y: 0i64,
            }),
            r.offset_uniform == (OffsetUniform {
                offset: (0i64, 0i64),
                memory_alignment_offset: (0i64, 0i64),
            }),
            r.num_indices == INDEX_COUNT,
    {
        let config = SurfaceConfig::negotiate(formats, present_modes, alpha_modes, width, height);
        State {
            config,
            size: Extent { width, height },
            water_stats: WaterStats::new(INITIAL_SPEED, -1, -1),
            offset_uniform: OffsetUniform::new(),
            num_indices: INDEX_COUNT,
        }
    }

    /// The input hook: a deliberate no-op pass-through. No event is
    /// consumed here; the loop's own mapping decides.
    pub fn input(&mut self, event: &WindowEvent) -> (consumed: bool)
        ensures
            consumed == false,
            *final(self) == *old(self),
    {
        let _ = event;
        false
    }

    /// Apply a resize request to the stored configuration and size. When a
    /// dimension is zero nothing changes and the surface must not be
    /// reconfigured.
    pub fn resize(&mut self, width: u32, height: u32) -> (applied: bool)
        requires
            old(self).wf(),
        ensures
            final(self).wf(),
            final(self).config == resized(old(self).config, width, height),
            final(self).size == if width > 0 && height > 0 {
                Extent { width, height }
            } else {
                old(self).size
            },
            final(self).water_stats == old(self).water_stats,
            final(self).offset_uniform == old(self).offset_uniform,
            final(self).num_indices == old(self).num_indices,
            applied <==> (width > 0 && height > 0),
    {
        let applied = self.config.resize(width, height);
        if applied {
            self.size = Extent { width, height };
        }
        applied
    }

    /// The state after a window event: a resize event updates the
    /// configuration and size, every other event leaves the state as it is.
    pub open spec fn after_event(self, event: WindowEvent) -> State {
        match event {
            WindowEvent::Resized { width, height } => self.spec_resized(width, height),
            WindowEvent::ScaleFactorChanged { width, height } => self.spec_resized(width, height),
            _ => self,
        }
    }

    /// The state after a resize request, as [`Self::resize`] leaves it.
    pub open spec fn spec_resized(self, width: u32, height: u32) -> State {
        State {
            config: resized(self.config, width, height),
            size: if width > 0 && height > 0 {
                Extent { width, height }
            } else {
                self.size
            },
            ..self
        }
    }

    /// Handle one window event: close requests and the escape key ask the
    /// loop to exit, resize events are applied, everything else is ignored.
    pub fn handle_window_event(&mut self, event: &WindowEvent) -> (r: EventResponse)
        requires
            old(self).wf(),
        ensures
            final(self).wf(),
            *final(self) == old(self).after_event(*event),
            r == response_for(*event),
    {
        match *event {
            WindowEvent::CloseRequested => EventResponse::Exit,
            WindowEvent::KeyPressed(key) => {
                if key == crate::frame::PressedKey::Escape {
                    EventResponse::Exit
                } else {
                    EventResponse::Ignore
                }
            },
            WindowEvent::Resized { width, height } => {
                if self.resize(width, height) {
                    EventResponse::Configure
                } else {
                    EventResponse::Ignore
                }
            },
            WindowEvent::ScaleFactorChanged { width, height } => {
                if self.resize(width, height) {
                    EventResponse::Configure
                } else {
                    EventResponse::Ignore
                }
            },
            WindowEvent::Other => EventResponse::Ignore,
        }
    }

    /// Advance the animation by one frame and hand back the new phases, so
    /// the shell can take their sines for [`Self::update_offset`]. This runs
    /// every tick, whether or not the frame ends up drawn.
    pub fn update_animation(&mut self) -> (phases: (i64, i64))
        requires
            old(self).wf(),
        ensures
            final(self).wf(),
            final(self).water_stats == old(self).water_stats.advanced(),
            final(self).config == old(self).config,
            final(self).size == old(self).size,
            final(self).offset_uniform == old(self).offset_uniform,
            final(self).num_indices == old(self).num_indices,
            phases.0 == final(self).water_stats.x,
            phases.1 == final(self).water_stats.y,
            0 <= phases.0 < TAU_UNITS,
            0 <= phases.1 < TAU_UNITS,
    {
        self.water_stats.advance();
        (self.water_stats.x, self.water_stats.y)
    }

    /// Store the offset derived from the sines of the advanced phases; the
    /// shell then writes the uniform to its GPU buffer.
    pub fn update_offset(&mut self, sin_x: i64, sin_y: i64)
        requires
            old(self).wf(),
            -UNIT_SCALE <= sin_x <= UNIT_SCALE,
            -UNIT_SCALE <= sin_y <= UNIT_SCALE,
        ensures
            final(self).wf(),
            final(self).offset_uniform.offset.0 == offset_of_sine(sin_x as int),
            final(self).offset_uniform.offset.1 == offset_of_sine(sin_y as int),
            final(self).offset_uniform.memory_alignment_offset == (0i64, 0i64),
            final(self).config == old(self).config,
            final(self).size == old(self).size,
            final(self).water_stats == old(self).water_stats,
            final(self).num_indices == old(self).num_indices,
    {
        self.offset_uniform.update_offset(sin_x, sin_y);
    }

    /// Classify an acquisition outcome into the action owed this frame,
    /// using the last known size for a reconfiguration.
    pub fn frame_action(&self, outcome: AcquireOutcome) -> (a: FrameAction)
        ensures
            a == action_for(outcome, self.size.width, self.size.height),
    {
        match outcome {
            AcquireOutcome::Acquired => FrameAction::Render,
            AcquireOutcome::Lost => FrameAction::Reconfigure {
                width: self.size.width,
                height: self.size.height,
            },
            AcquireOutcome::Outdated => FrameAction::Reconfigure {
                width: self.size.width,
                height: self.size.height,
            },
            AcquireOutcome::OutOfMemory => FrameAction::Exit,
            AcquireOutcome::Timeout => FrameAction::Skip,
        }
    }
}

} // verus!
