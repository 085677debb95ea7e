//! One-time pipeline resources, described as plain values.
//!
//! The shell builds the real bind-group layouts, pipeline layout and render
//! pipeline from these descriptions; what the descriptions must say — the
//! binding shapes, the group order, and the fixed-function state — is
//! pinned here. The clear color is carried in thousandths, the shell
//! divides by 1000 for the floating-point color the pass wants.

use vstd::prelude::*;
use crate::geometry::INDEX_COUNT;
use crate::surface::SurfaceFormat;

verus! {

/// What one binding of a bind-group layout is, as far as this pipeline
/// needs: all bindings are fragment-visible.
#[derive(Clone, Copy, Debug, PartialEq, Eq, Structural)]
pub enum BindingType {
    /// A sampled 2D texture: float samples, filterable, single-sampled.
    FilterableTexture2d,
    /// A filtering sampler.
    FilteringSampler,
    /// A uniform buffer without dynamic offset.
    UniformBuffer,
}

/// One entry of a bind-group layout.
#[derive(Clone, Copy, Debug, PartialEq, Eq, Structural)]
pub struct LayoutEntry {
    pub binding: u32,
    pub fragment_visible: bool,
    pub ty: BindingType,
}

/// The layout shared by both texture bind groups: binding 0 the sampled
/// texture, binding 1 the filtering sampler, both fragment-visible.
pub fn texture_layout_entries() -> (r: Vec<LayoutEntry>)
    ensures
        r@.len() == 2,
        r@[0] == (LayoutEntry {
            binding: 0,
            fragment_visible: true,
            ty: BindingType::FilterableTexture2d,
        }),
        r@[1] == (LayoutEntry {
            binding: 1,
            fragment_visible: true,
            ty: BindingType::FilteringSampler,
        }),
{
    let mut r: Vec<LayoutEntry> = Vec::new();
    r.push(
        LayoutEntry { binding: 0, fragment_visible: true, ty: BindingType::FilterableTexture2d },
    );
    r.push(LayoutEntry { binding: 1, fragment_visible: true, ty: BindingType::FilteringSampler });
    r
}

/// The layout of the offset-uniform bind group: one fragment-visible
/// uniform-buffer binding at 0.
pub fn uniform_layout_entries() -> (r: Vec<LayoutEntry>)
    ensures
        r@.len() == 1,
        r@[0] == (LayoutEntry {
            binding: 0,
            fragment_visible: true,
            ty: BindingType::UniformBuffer,
        }),
{
    let mut r: Vec<LayoutEntry> = Vec::new();
    r.push(LayoutEntry { binding: 0, fragment_visible: true, ty: BindingType::UniformBuffer });
    r
}

/// The kind of bind group a pipeline-layout slot takes.
#[derive(Clone, Copy, Debug, PartialEq, Eq, Structural)]
pub enum GroupKind {
    /// A texture-and-sampler group.
    TextureSampler,
    /// The offset-uniform group.
    Uniform,
}

/// The pipeline layout's bind groups in slot order: background texture at
/// 0, water texture at 1, offset uniform at 2 — the order the shader
/// program expects.
pub fn pipeline_group_order() -> (r: Vec<GroupKind>)
    ensures
        r@.len() == 3,
        r@[0] == GroupKind::TextureSampler,
        r@[1] == GroupKind::TextureSampler,
        r@[2] == GroupKind::Uniform,
{
    let mut r: Vec<GroupKind> = Vec::new();
    r.push(GroupKind::TextureSampler);
    r.push(GroupKind::TextureSampler);
    r.push(GroupKind::Uniform);
    r
}

/// The fixed-function state of the one render pipeline.
#[derive(Clone, Copy, Debug, PartialEq, Eq, Structural)]
pub struct PipelinePlan {
    /// The single color target's format: the negotiated surface format.
    pub color_format: SurfaceFormat,
    /// Alpha-replacing blend on the color target.
    pub blend_replace: bool,
    /// Full color write mask.
    pub write_mask_all: bool,
    /// Triangle-list topology.
    pub triangle_list: bool,
    /// Counter-clockwise front faces.
    pub front_face_ccw: bool,
    /// Back-face culling enabled.
    pub cull_back: bool,
    /// Fill (not line or point) polygon mode.
    pub polygon_fill: bool,
    /// Whether a depth/stencil attachment exists: it does not.
    pub depth_stencil: bool,
    /// Single-sample rendering.
    pub sample_count: u32,
    /// Multiview is not used.
    pub multiview: bool,
}

/// The pipeline state for the negotiated surface format. Built once at
/// startup; a failure to realize it on the device is fatal.
pub fn pipeline_plan(format: SurfaceFormat) -> (r: PipelinePlan)
    ensures
        r == (PipelinePlan {
            color_format: format,
            blend_replace: true,
            write_mask_all: true,
            triangle_list: true,
            front_face_ccw: true,
            cull_back: true,
            polygon_fill: true,
            depth_stencil: false,
            sample_count: 1,
            multiview: false,
        }),
{
    PipelinePlan {
        color_format: format,
        blend_replace: true,
        write_mask_all: true,
        triangle_list: true,
        front_face_ccw: true,
        cull_back: true,
        polygon_fill: true,
        depth_stencil: false,
        sample_count: 1,
        multiview: false,
    }
}

/// The one render pass a drawn frame records, described exactly: a single
/// color attachment cleared to the fixed color, the three bind groups in
/// slot order, the vertex buffer at slot 0, the 16-bit index buffer, and
/// one indexed draw of the whole quad.
#[derive(Clone, Copy, Debug, PartialEq, Eq, Structural)]
pub struct RenderPassPlan {
    /// Clear color, in thousandths: red.
    pub clear_r_milli: u32,
    /// Clear color, in thousandths: green.
    pub clear_g_milli: u32,
    /// Clear color, in thousandths: blue.
    pub clear_b_milli: u32,
    /// Clear color, in thousandths: alpha.
    pub clear_a_milli: u32,
    /// Results of the pass are stored, not discarded.
    pub store_results: bool,
    /// Bind-group slot of the background texture.
    pub background_slot: u32,
    /// Bind-group slot of the water texture.
    pub water_slot: u32,
    /// Bind-group slot of the offset uniform.
    pub offset_slot: u32,
    /// Vertex-buffer slot.
    pub vertex_buffer_slot: u32,
    /// The index buffer holds 16-bit indices.
    pub index_16bit: bool,
    /// How many indices the draw covers: all of them.
    pub index_count: u32,
    /// How many instances: one.
    pub instance_count: u32,
}

/// The fixed per-frame pass: clear to (0.1, 0.2, 0.3, 1.0), bind groups at
/// slots 0, 1, 2, and one draw of all 6 indices.
pub fn render_pass_plan() -> (r: RenderPassPlan)
    ensures
        r == (RenderPassPlan {
            clear_r_milli: 100,
            clear_g_milli: 200,
            clear_b_milli: 300,
            clear_a_milli: 1000,
            store_results: true,
            background_slot: 0,
            water_slot: 1,
            offset_slot: 2,
            vertex_buffer_slot: 0,
            index_16bit: true,
            index_count: INDEX_COUNT,
            instance_count: 1,
        }),
{
    RenderPassPlan {
        clear_r_milli: 100,
        clear_g_milli: 200,
        clear_b_milli: 300,
        clear_a_milli: 1000,
        store_results: true,
        background_slot: 0,
        water_slot: 1,
        offset_slot: 2,
        vertex_buffer_slot: 0,
        index_16bit: true,
        index_count: INDEX_COUNT,
        instance_count: 1,
    }
}

} // verus!
