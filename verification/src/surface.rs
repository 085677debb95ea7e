//! Surface configuration: pixel-format negotiation at startup and the
//! resize rule applied on window events.
//!
//! The GPU's advertised capabilities reach this module as plain values: a
//! format is an opaque tag plus its sRGB flag, presentation and alpha modes
//! are opaque tags. The unverified shell maps them to and from the driver's
//! own types.

use vstd::prelude::*;

verus! {

/// One pixel format a surface advertises: an opaque tag chosen by the shell
/// plus whether the format is sRGB-capable.
#[derive(Clone, Copy, Debug, PartialEq, Eq, Structural)]
pub struct SurfaceFormat {
    pub tag: u32,
    pub srgb: bool,
}

/// The configuration a surface is (re)applied with.
///
/// Well-formed configurations never have a zero dimension: a resize to a
/// zero width or height is ignored rather than applied.
#[derive(Clone, Copy, Debug, PartialEq, Eq, Structural)]
pub struct SurfaceConfig {
    pub format: SurfaceFormat,
    pub width: u32,
    pub height: u32,
    pub present_mode: u32,
    pub alpha_mode: u32,
}

/// Whether `formats` has an sRGB-capable entry anywhere.
pub open spec fn has_srgb(formats: Seq<SurfaceFormat>) -> bool {
    exists|i: int| 0 <= i < formats.len() && formats[i].srgb
}

/// Pick the surface format: the first sRGB-capable entry of the advertised
/// list, or the first entry when none is sRGB-capable.
pub fn choose_format(formats: &Vec<SurfaceFormat>) -> (r: SurfaceFormat)
    requires
        formats@.len() > 0,
    ensures
        has_srgb(formats@) ==> exists|i: int|
            0 <= i < formats@.len() && formats@[i].srgb && r == formats@[i] && (forall|j: int|
                0 <= j < i ==> !formats@[j].srgb),
        !has_srgb(formats@) ==> r == formats@[0],
{
    let mut k: usize = 0;
    while k < formats.len()
        invariant
            0 <= k <= formats@.len(),
            formats@.len() > 0,
            forall|j: int| 0 <= j < k ==> !formats@[j].srgb,
        decreases formats@.len() - k,
    {
        if formats[k].srgb {
            return formats[k];
        }
        k = k + 1;
    }
    formats[0]
}

impl SurfaceConfig {
    pub open spec fn wf(self) -> bool {
        self.width > 0 && self.height > 0
    }

    /// Negotiate the initial configuration from the advertised capability
    /// lists: the preferred format, the first presentation mode, the first
    /// alpha-compositing mode, and the requested dimensions.
    pub fn negotiate(
        formats: &Vec<SurfaceFormat>,
        present_modes: &Vec<u32>,
        alpha_modes: &Vec<u32>,
        width: u32,
        height: u32,
    ) -> (r: SurfaceConfig)
        requires
            formats@.len() > 0,
            present_modes@.len() > 0,
            alpha_modes@.len() > 0,
            width > 0,
            height > 0,
        ensures
            r.wf(),
            r.width == width,
            r.height == height,
            r.present_mode == present_modes@[0],
            r.alpha_mode == alpha_modes@[0],
            has_srgb(formats@) ==> exists|i: int|
                0 <= i < formats@.len() && formats@[i].srgb && r.format == formats@[i] && (
                forall|j: int| 0 <= j < i ==> !formats@[j].srgb),
            !has_srgb(formats@) ==> r.format == formats@[0],
    {
        let format = choose_format(formats);
        SurfaceConfig {
            format,
            width,
            height,
            present_mode: present_modes[0],
            alpha_mode: alpha_modes[0],
        }
    }

    /// Apply a resize request: update the dimensions when both are positive,
    /// leave the configuration untouched when either is zero.
    pub fn resize(&mut self, width: u32, height: u32) -> (applied: bool)
        requires
            old(self).wf(),
        ensures
            final(self).wf(),
            *final(self) == resized(*old(self), width, height),
            applied <==> (width > 0 && height > 0),
    {
        if width > 0 && height > 0 {
            self.width = width;
            self.height = height;
            true
        } else {
            false
        }
    }
}

/// The configuration after a resize request: dimensions replaced when both
/// are positive, unchanged otherwise.
pub open spec fn resized(c: SurfaceConfig, width: u32, height: u32) -> SurfaceConfig {
    if width > 0 && height > 0 {
        SurfaceConfig { width, height, ..c }
    } else {
        c
    }
}

/// Resize idempotence law: applying the same positive resize twice gives
/// the configuration one application gives.
pub proof fn lemma_resize_idempotent(c: SurfaceConfig, width: u32, height: u32)
    ensures
        resized(resized(c, width, height), width, height) == resized(c, width, height),
{
}

/// Zero-dimension law: a resize request with a zero width or height leaves
/// the configuration exactly as it was.
pub proof fn lemma_resize_zero_ignored(c: SurfaceConfig, width: u32, height: u32)
    requires
        width == 0 || height == 0,
    ensures
        resized(c, width, height) == c,
{
}

} // verus!
