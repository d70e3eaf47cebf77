use threedtest::render::{
    depth_texture_bindable, max_msaa_samples, msaa_sample_count, object_draw_plan, pick_adapter,
    pick_surface_format, present_mode, resize_extent, screenshot_layout, surface_extent,
    unpad_rows, AdapterCandidate, DeviceKind, PipelineKind, PresentMode,
};
use threedtest::state::{Controls, RenderMode, ShapeKind};

fn cand(ok: bool, kind: DeviceKind) -> AdapterCandidate {
    AdapterCandidate { surface_supported: ok, kind }
}

#[test]
fn adapter_prefers_discrete() {
    let c = vec![
        cand(true, DeviceKind::IntegratedGpu),
        cand(true, DeviceKind::DiscreteGpu),
        cand(true, DeviceKind::Cpu),
    ];
    assert_eq!(pick_adapter(&c), Some(1));
}

#[test]
fn adapter_skips_unsupported() {
    let c = vec![
        cand(false, DeviceKind::DiscreteGpu),
        cand(true, DeviceKind::Cpu),
        cand(true, DeviceKind::IntegratedGpu),
    ];
    assert_eq!(pick_adapter(&c), Some(2));
}

#[test]
fn adapter_last_of_equal_rank() {
    let c = vec![
        cand(true, DeviceKind::Cpu),
        cand(true, DeviceKind::Other),
        cand(true, DeviceKind::VirtualGpu),
    ];
    assert_eq!(pick_adapter(&c), Some(2));
}

#[test]
fn adapter_none() {
    assert_eq!(pick_adapter(&vec![]), None);
    assert_eq!(pick_adapter(&vec![cand(false, DeviceKind::DiscreteGpu)]), None);
}

#[test]
fn surface_format_choice() {
    assert_eq!(pick_surface_format(&vec![false, true, true]), 1);
    assert_eq!(pick_surface_format(&vec![false, false]), 0);
    assert_eq!(pick_surface_format(&vec![true]), 0);
}

#[test]
fn msaa() {
    assert_eq!(max_msaa_samples(true), 4);
    assert_eq!(max_msaa_samples(false), 1);
    assert_eq!(msaa_sample_count(true, 4), 4);
    assert_eq!(msaa_sample_count(true, 1), 1);
    assert_eq!(msaa_sample_count(false, 4), 1);
    assert!(depth_texture_bindable(1));
    assert!(!depth_texture_bindable(4));
}

#[test]
fn present_modes() {
    assert_eq!(present_mode(true), PresentMode::AutoVsync);
    assert_eq!(present_mode(false), PresentMode::AutoNoVsync);
}

#[test]
fn extents() {
    assert_eq!(surface_extent(0, 720), (1, 720));
    assert_eq!(surface_extent(800, 600), (800, 600));
    assert_eq!(resize_extent(0, 600), None);
    assert_eq!(resize_extent(800, 0), None);
    assert_eq!(resize_extent(800, 600), Some((800, 600)));
}

#[test]
fn draw_plans() {
    let mut c = Controls::new();
    let p = object_draw_plan(&c, ShapeKind::Cube, true, true);
    assert_eq!(p.pipeline, PipelineKind::Solid);
    assert!(p.use_lighting && !p.show_normals && p.trail.is_none());

    let t = object_draw_plan(&c, ShapeKind::Torus, true, true);
    assert_eq!(t.pipeline, PipelineKind::Line);
    assert!(!t.use_lighting);

    c.view.render_mode = RenderMode::Wireframe;
    let w = object_draw_plan(&c, ShapeKind::Sphere, false, true);
    assert_eq!(w.pipeline, PipelineKind::Line);
    assert!(!w.use_lighting);

    c.view.render_mode = RenderMode::Points;
    assert_eq!(object_draw_plan(&c, ShapeKind::Pyramid, false, true).pipeline, PipelineKind::Point);
    assert_eq!(object_draw_plan(&c, ShapeKind::Pyramid, false, false).pipeline, PipelineKind::Solid);

    c.view.render_mode = RenderMode::Solid;
    c.panels.show_normals = true;
    c.anim.rotation_trail = true;
    let s = object_draw_plan(&c, ShapeKind::Cube, true, false);
    assert!(s.show_normals);
    assert_eq!(s.trail, Some(PipelineKind::Solid));
    let other = object_draw_plan(&c, ShapeKind::Cube, false, false);
    assert!(!other.show_normals && other.trail.is_none());
    let torus_sel = object_draw_plan(&c, ShapeKind::Torus, true, false);
    assert!(!torus_sel.show_normals);
    assert_eq!(torus_sel.trail, Some(PipelineKind::Line));
}

#[test]
fn screenshot_layout_1280() {
    let l = screenshot_layout(1280, 720, 256);
    assert_eq!(l.unpadded_row, 5120);
    assert_eq!(l.padded_row, 5120);
    assert_eq!(l.buffer_size, 5120 * 720);
}

#[test]
fn screenshot_layout_padded() {
    let l = screenshot_layout(100, 3, 256);
    assert_eq!(l.unpadded_row, 400);
    assert_eq!(l.padded_row, 512);
    assert_eq!(l.buffer_size, 1536);
}

#[test]
fn unpad() {
    let l = screenshot_layout(1, 3, 8);
    assert_eq!(l.unpadded_row, 4);
    assert_eq!(l.padded_row, 8);
    let data: Vec<u8> = (0..24).collect();
    let px = unpad_rows(&data, &l);
    assert_eq!(px, vec![0, 1, 2, 3, 8, 9, 10, 11, 16, 17, 18, 19]);
}

#[test]
fn unpad_without_padding_is_identity() {
    let l = screenshot_layout(2, 2, 8);
    assert_eq!(l.padded_row, 8);
    let data: Vec<u8> = (0..16).collect();
    assert_eq!(unpad_rows(&data, &l), data);
}
