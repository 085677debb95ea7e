//! Tests of the value models: animation phases, the offset uniform, format
//! negotiation, resize rules, and the static geometry.

use reflect_water::animation::{WaterStats, INITIAL_SPEED, TAU_UNITS, UNIT_SCALE};
use reflect_water::geometry::{
    quad_indices, quad_vertices, Vertex, VertexFormat, INDEX_COUNT, TEX_COORDS_OFFSET,
    VERTEX_COUNT, VERTEX_STRIDE,
};
use reflect_water::pipeline::{
    pipeline_group_order, pipeline_plan, render_pass_plan, texture_layout_entries,
    uniform_layout_entries, BindingType, GroupKind,
};
use reflect_water::state::{Extent, State, INITIAL_HEIGHT, INITIAL_WIDTH};
use reflect_water::surface::{choose_format, SurfaceFormat};
use reflect_water::uniform::{OffsetUniform, MAX_OFFSET};

fn new_state() -> State {
    let formats = vec![
        SurfaceFormat { tag: 10, srgb: false },
        SurfaceFormat { tag: 11, srgb: true },
        SurfaceFormat { tag: 12, srgb: true },
    ];
    let present_modes = vec![3u32, 1];
    let alpha_modes = vec![8u32, 9];
    State::new(&formats, &present_modes, &alpha_modes, INITIAL_WIDTH, INITIAL_HEIGHT)
}

#[test]
fn phase_follows_modular_arithmetic() {
    let mut w = WaterStats::new(INITIAL_SPEED, -1, -1);
    let tau = TAU_UNITS as i128;
    for n in 1..=1000i128 {
        w.advance();
        let expected = (((-n * INITIAL_SPEED as i128) % tau) + tau) % tau;
        assert_eq!(w.x as i128, expected);
        assert_eq!(w.y as i128, expected);
        assert!(0 <= w.x && w.x < TAU_UNITS);
        assert!(0 <= w.y && w.y < TAU_UNITS);
    }
}

#[test]
fn phase_positive_direction_wraps_at_tau() {
    let mut w = WaterStats::new(TAU_UNITS - 1, 1, 0);
    w.advance();
    assert_eq!(w.x, TAU_UNITS - 1);
    w.advance();
    assert_eq!(w.x, TAU_UNITS - 2);
    assert_eq!(w.y, 0);
}

#[test]
fn startup_first_advance() {
    let mut w = WaterStats::new(INITIAL_SPEED, -1, -1);
    w.advance();
    // a negative direction wraps near tau instead of going negative
    assert_eq!(w.x, TAU_UNITS - INITIAL_SPEED);
    assert_eq!(w.y, TAU_UNITS - INITIAL_SPEED);
    let phase = w.x as f64 / UNIT_SCALE as f64;
    assert!((phase - 6.2632).abs() < 1e-3);
    let sine_units = (phase.sin() * UNIT_SCALE as f64).round() as i64;
    let mut u = OffsetUniform::new();
    u.update_offset(sine_units, sine_units);
    let offset = u.offset.0 as f64 / UNIT_SCALE as f64;
    assert!((offset - 0.0098).abs() < 1e-3);
    assert_eq!(u.offset.0, u.offset.1);
    assert_eq!(u.memory_alignment_offset, (0, 0));
}

#[test]
fn offset_stays_in_bounds() {
    let mut u = OffsetUniform::new();
    assert_eq!(u.offset, (0, 0));
    for s in [-UNIT_SCALE, -1_234_567, 0, 9_999_999, UNIT_SCALE] {
        u.update_offset(s, -s);
        assert!(0 <= u.offset.0 && u.offset.0 <= MAX_OFFSET);
        assert!(0 <= u.offset.1 && u.offset.1 <= MAX_OFFSET);
        assert_eq!(u.memory_alignment_offset, (0, 0));
    }
    u.update_offset(UNIT_SCALE, -UNIT_SCALE);
    assert_eq!(u.offset.0, MAX_OFFSET);
    assert_eq!(u.offset.1, 0);
}

#[test]
fn padding_survives_every_update() {
    let mut u = OffsetUniform::new();
    assert_eq!(u.memory_alignment_offset, (0, 0));
    for s in 0..100i64 {
        u.update_offset(s * 100_000 - 5_000_000, 5_000_000 - s * 100_000);
        assert_eq!(u.memory_alignment_offset, (0, 0));
    }
}

#[test]
fn negotiation_prefers_first_srgb_format() {
    let s = new_state();
    assert_eq!(s.config.format, SurfaceFormat { tag: 11, srgb: true });
    assert_eq!(s.config.present_mode, 3);
    assert_eq!(s.config.alpha_mode, 8);
    assert_eq!((s.config.width, s.config.height), (INITIAL_WIDTH, INITIAL_HEIGHT));
    assert_eq!(s.size, Extent { width: INITIAL_WIDTH, height: INITIAL_HEIGHT });
    assert_eq!(s.water_stats, WaterStats { speed: INITIAL_SPEED, dir_x: -1, dir_y: -1, x: 0, y: 0 });
    assert_eq!(s.num_indices, INDEX_COUNT);
}

#[test]
fn negotiation_falls_back_to_first_format() {
    let formats = vec![
        SurfaceFormat { tag: 4, srgb: false },
        SurfaceFormat { tag: 5, srgb: false },
    ];
    assert_eq!(choose_format(&formats), SurfaceFormat { tag: 4, srgb: false });
}

#[test]
fn resize_twice_equals_once() {
    let mut once = new_state();
    let mut twice = new_state();
    assert!(once.resize(800, 600));
    assert!(twice.resize(800, 600));
    assert!(twice.resize(800, 600));
    assert_eq!(once.config, twice.config);
    assert_eq!(once.size, twice.size);
    assert_eq!((once.config.width, once.config.height), (800, 600));
}

#[test]
fn zero_resize_is_ignored() {
    let mut s = new_state();
    assert!(!s.resize(0, 600));
    assert!(!s.resize(800, 0));
    assert!(!s.resize(0, 0));
    assert_eq!(s.config, new_state().config);
    assert_eq!(s.size, Extent { width: INITIAL_WIDTH, height: INITIAL_HEIGHT });
}

#[test]
fn quad_has_four_vertices_and_six_indices() {
    let vertices = quad_vertices();
    let indices = quad_indices();
    assert_eq!(vertices.len(), VERTEX_COUNT as usize);
    assert_eq!(indices.len(), INDEX_COUNT as usize);
    assert_eq!(indices, vec![0, 1, 2, 0, 2, 3]);
    assert_eq!(vertices[0].position, (-1, -1, 0));
    assert_eq!(vertices[0].tex_coords, (0, 1));
    assert_eq!(vertices[1].position, (1, -1, 0));
    assert_eq!(vertices[1].tex_coords, (1, 1));
    assert_eq!(vertices[2].position, (1, 1, 0));
    assert_eq!(vertices[2].tex_coords, (1, 0));
    assert_eq!(vertices[3].position, (-1, 1, 0));
    assert_eq!(vertices[3].tex_coords, (0, 0));
}

#[test]
fn quad_triangles_wind_counter_clockwise() {
    let vertices = quad_vertices();
    let indices = quad_indices();
    for t in 0..2usize {
        let a = vertices[indices[3 * t] as usize].position;
        let b = vertices[indices[3 * t + 1] as usize].position;
        let c = vertices[indices[3 * t + 2] as usize].position;
        let cross = (b.0 - a.0) * (c.1 - a.1) - (b.1 - a.1) * (c.0 - a.0);
        assert!(cross > 0);
    }
}

#[test]
fn vertex_layout_matches_packed_floats() {
    let d = Vertex::desc();
    assert_eq!(d.array_stride, VERTEX_STRIDE);
    assert_eq!(d.array_stride, 20);
    assert!(d.step_per_vertex);
    assert_eq!(d.attributes.len(), 2);
    assert_eq!(d.attributes[0].offset, 0);
    assert_eq!(d.attributes[0].shader_location, 0);
    assert_eq!(d.attributes[0].format, VertexFormat::Float32x3);
    assert_eq!(d.attributes[1].offset, TEX_COORDS_OFFSET);
    assert_eq!(d.attributes[1].offset, 12);
    assert_eq!(d.attributes[1].shader_location, 1);
    assert_eq!(d.attributes[1].format, VertexFormat::Float32x2);
}

#[test]
fn bind_group_layouts_have_the_fixed_shape() {
    let tex = texture_layout_entries();
    assert_eq!(tex.len(), 2);
    assert_eq!(tex[0].binding, 0);
    assert!(tex[0].fragment_visible);
    assert_eq!(tex[0].ty, BindingType::FilterableTexture2d);
    assert_eq!(tex[1].binding, 1);
    assert!(tex[1].fragment_visible);
    assert_eq!(tex[1].ty, BindingType::FilteringSampler);
    let uni = uniform_layout_entries();
    assert_eq!(uni.len(), 1);
    assert_eq!(uni[0].binding, 0);
    assert!(uni[0].fragment_visible);
    assert_eq!(uni[0].ty, BindingType::UniformBuffer);
}

#[test]
fn pipeline_groups_and_fixed_function_state() {
    let order = pipeline_group_order();
    assert_eq!(order.len(), 3);
    assert_eq!(order[0], GroupKind::TextureSampler);
    assert_eq!(order[1], GroupKind::TextureSampler);
    assert_eq!(order[2], GroupKind::Uniform);
    let plan = pipeline_plan(SurfaceFormat { tag: 11, srgb: true });
    assert_eq!(plan.color_format, SurfaceFormat { tag: 11, srgb: true });
    assert!(plan.blend_replace);
    assert!(plan.write_mask_all);
    assert!(plan.triangle_list);
    assert!(plan.front_face_ccw);
    assert!(plan.cull_back);
    assert!(plan.polygon_fill);
    assert!(!plan.depth_stencil);
    assert_eq!(plan.sample_count, 1);
    assert!(!plan.multiview);
}

#[test]
fn render_pass_plan_is_fixed() {
    let p = render_pass_plan();
    assert_eq!(
        (p.clear_r_milli, p.clear_g_milli, p.clear_b_milli, p.clear_a_milli),
        (100, 200, 300, 1000)
    );
    assert!(p.store_results);
    assert_eq!((p.background_slot, p.water_slot, p.offset_slot), (0, 1, 2));
    assert_eq!(p.vertex_buffer_slot, 0);
    assert!(p.index_16bit);
    assert_eq!(p.index_count, INDEX_COUNT);
    assert_eq!(p.instance_count, 1);
}
