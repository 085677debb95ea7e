//! Verified core of a renderer that draws one full-screen quad: a static
//! background texture blended with a scrolling water texture.
//!
//! The GPU itself (device, surface, buffers, pipeline, command submission) is
//! driven by an unverified shell; this crate holds the decisions that shell
//! must make each frame, stated over plain values and proved:
//!
//! - the scroll-phase animation and the offset it feeds to the shader uniform
//!   ([`animation`], [`uniform`]),
//! - surface format negotiation and the resize rules ([`surface`]),
//! - the static quad geometry and vertex layout ([`geometry`], [`pipeline`]),
//! - the per-frame state machine that classifies surface acquisition results
//!   and the event loop's reactions ([`state`], [`frame`], [`driver`]).
//!
//! Angles and offsets are carried in fixed-point units (ten-millionths); the
//! shell converts them to the floating-point values the GPU consumes.

pub mod animation;
pub mod driver;
pub mod frame;
pub mod geometry;
pub mod pipeline;
pub mod state;
pub mod surface;
pub mod uniform;
