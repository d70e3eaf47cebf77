use vstd::prelude::*;
use vstd::arithmetic::div_mod::{lemma_fundamental_div_mod, lemma_mod_multiples_basic};
use crate::state::{Controls, RenderMode, ShapeKind};

verus! {

// ---------------------------------------------------------------- device setup

/// The kind of device an adapter drives.
#[derive(Debug, Clone, Copy, PartialEq, Eq, Structural)]
pub enum DeviceKind {
    Other,
    IntegratedGpu,
    DiscreteGpu,
    VirtualGpu,
    Cpu,
}

/// What the adapter choice reads of one enumerated adapter.
#[derive(Debug, Clone, Copy, PartialEq, Eq, Structural)]
pub struct AdapterCandidate {
    /// The adapter can present to the window's surface.
    pub surface_supported: bool,
    pub kind: DeviceKind,
}

/// How much a kind of device is preferred: discrete over integrated over the rest.
pub open spec fn device_rank(k: DeviceKind) -> int {
    match k {
        DeviceKind::DiscreteGpu => 2,
        DeviceKind::IntegratedGpu => 1,
        _ => 0,
    }
}

fn rank(k: DeviceKind) -> (r: u8)
    ensures
        r == device_rank(k),
{
    match k {
        DeviceKind::DiscreteGpu => 2,
        DeviceKind::IntegratedGpu => 1,
        _ => 0,
    }
}

/// Picks the adapter to open: among those that support the surface, one of
/// the most preferred kind, the last such in enumeration order; `None` when
/// no adapter supports the surface.
pub fn pick_adapter(candidates: &Vec<AdapterCandidate>) -> (r: Option<usize>)
    ensures
        r is None <==> forall|j: int| 0 <= j < candidates@.len() ==> !(#[trigger] candidates@[j]).surface_supported,
        r matches Some(i) ==> {
            &&& i < candidates@.len()
            &&& candidates@[i as int].surface_supported
            &&& forall|j: int|
                0 <= j < candidates@.len() && (#[trigger] candidates@[j]).surface_supported
                    ==> device_rank(candidates@[j].kind) <= device_rank(candidates@[i as int].kind)
            &&& forall|j: int|
                i < j < candidates@.len() && (#[trigger] candidates@[j]).surface_supported
                    ==> device_rank(candidates@[j].kind) < device_rank(candidates@[i as int].kind)
        },
{
    let mut best: Option<usize> = None;
    let mut best_rank: u8 = 0;
    let mut k: usize = 0;
    while k < candidates.len()
        invariant
            k <= candidates@.len(),
            best is None <==> forall|j: int| 0 <= j < k ==> !(#[trigger] candidates@[j]).surface_supported,
            best matches Some(i) ==> {
                &&& i < k
                &&& candidates@[i as int].surface_supported
                &&& best_rank == device_rank(candidates@[i as int].kind)
                &&& forall|j: int|
                    0 <= j < k && (#[trigger] candidates@[j]).surface_supported
                        ==> device_rank(candidates@[j].kind) <= best_rank
                &&& forall|j: int|
                    i < j < k && (#[trigger] candidates@[j]).surface_supported
                        ==> device_rank(candidates@[j].kind) < best_rank
            },
        decreases candidates@.len() - k,
    {
        let c = candidates[k];
        if c.surface_supported {
            let r = rank(c.kind);
            if best.is_none() || r >= best_rank {
                best = Some(k);
                best_rank = r;
            }
        }
        k = k + 1;
    }
    best
}

/// Picks the surface format: the first sRGB one, else the first one.
pub fn pick_surface_format(is_srgb: &Vec<bool>) -> (r: usize)
    requires
        is_srgb@.len() > 0,
    ensures
        r < is_srgb@.len(),
        (exists|j: int| 0 <= j < is_srgb@.len() && #[trigger] is_srgb@[j]) ==> is_srgb@[r as int]
            && forall|j: int| 0 <= j < r ==> !#[trigger] is_srgb@[j],
        (forall|j: int| 0 <= j < is_srgb@.len() ==> !#[trigger] is_srgb@[j]) ==> r == 0,
{
    let mut k: usize = 0;
    while k < is_srgb.len()
        invariant
            k <= is_srgb@.len(),
            forall|j: int| 0 <= j < k ==> !#[trigger] is_srgb@[j],
        decreases is_srgb@.len() - k,
    {
        if is_srgb[k] {
            return k;
        }
        k = k + 1;
    }
    0
}

/// The largest sample count the renderer uses with the surface format.
pub fn max_msaa_samples(supports_4x: bool) -> (r: u32)
    ensures
        r == if supports_4x { 4u32 } else { 1u32 },
{
    if supports_4x {
        4
    } else {
        1
    }
}

/// The sample count of the render targets: 4 when MSAA is on and available.
pub fn msaa_sample_count(msaa_enabled: bool, max_samples: u32) -> (r: u32)
    ensures
        r == if msaa_enabled && max_samples >= 4 { 4u32 } else { 1u32 },
        r == 1 || r == 4,
        r <= max_samples || r == 1,
{
    if msaa_enabled && max_samples >= 4 {
        4
    } else {
        1
    }
}

/// Whether the depth texture can also be sampled (only without MSAA).
pub fn depth_texture_bindable(samples: u32) -> (r: bool)
    ensures
        r == (samples <= 1),
{
    !(samples > 1)
}

/// How frames are presented.
#[derive(Debug, Clone, Copy, PartialEq, Eq, Structural)]
pub enum PresentMode {
    AutoVsync,
    AutoNoVsync,
}

pub fn present_mode(vsync: bool) -> (r: PresentMode)
    ensures
        r == if vsync { PresentMode::AutoVsync } else { PresentMode::AutoNoVsync },
{
    if vsync {
        PresentMode::AutoVsync
    } else {
        PresentMode::AutoNoVsync
    }
}

/// The size the surface is first configured with: the window's, at least 1×1.
pub fn surface_extent(width: u32, height: u32) -> (r: (u32, u32))
    ensures
        r.0 == if width >= 1 { width } else { 1u32 },
        r.1 == if height >= 1 { height } else { 1u32 },
{
    (if width >= 1 { width } else { 1 }, if height >= 1 { height } else { 1 })
}

/// The size a resize reconfigures the surface to; `None` (keep the current
/// configuration) while the window is minimised to zero width or height.
pub fn resize_extent(width: u32, height: u32) -> (r: Option<(u32, u32)>)
    ensures
        r == if width == 0 || height == 0 { None } else { Some((width, height)) },
{
    if width == 0 || height == 0 {
        None
    } else {
        Some((width, height))
    }
}

// ---------------------------------------------------------------- drawing

/// The pipelines the renderer keeps.
#[derive(Debug, Clone, Copy, PartialEq, Eq, Structural)]
pub enum PipelineKind {
    /// Filled triangles (with back-face culling when enabled).
    Solid,
    /// Line list.
    Line,
    /// Triangles rasterised as points.
    Point,
}

/// How one scene object is drawn.
#[derive(Debug, Clone, Copy, PartialEq, Eq, Structural)]
pub struct DrawPlan {
    pub pipeline: PipelineKind,
    /// The object's uniforms switch lighting on.
    pub use_lighting: bool,
    /// The object is shaded by its normals, and its normal lines are drawn.
    pub show_normals: bool,
    /// The rotation trail is drawn first, with this pipeline.
    pub trail: Option<PipelineKind>,
}

/// The plan for drawing an object of `shape`; `is_selected` says it is the
/// edited object, `has_point_pipeline` that the device rasterises points.
pub open spec fn draw_plan(c: Controls, shape: ShapeKind, is_selected: bool, has_point_pipeline: bool) -> DrawPlan {
    let is_line = shape == ShapeKind::Torus;
    DrawPlan {
        pipeline: if is_line {
            PipelineKind::Line
        } else {
            match c.view.render_mode {
                RenderMode::Solid => PipelineKind::Solid,
                RenderMode::Wireframe => PipelineKind::Line,
                RenderMode::Points => if has_point_pipeline {
                    PipelineKind::Point
                } else {
                    PipelineKind::Solid
                },
            }
        },
        use_lighting: c.view.lighting_enabled && c.view.render_mode == RenderMode::Solid && !is_line,
        show_normals: c.panels.show_normals && is_selected && !is_line,
        trail: if c.anim.rotation_trail && is_selected {
            Some(if is_line { PipelineKind::Line } else { PipelineKind::Solid })
        } else {
            None
        },
    }
}

pub fn object_draw_plan(c: &Controls, shape: ShapeKind, is_selected: bool, has_point_pipeline: bool) -> (r: DrawPlan)
    ensures
        r == draw_plan(*c, shape, is_selected, has_point_pipeline),
{
    let is_line = shape == ShapeKind::Torus;
    let pipeline = if is_line {
        PipelineKind::Line
    } else {
        match c.view.render_mode {
            RenderMode::Solid => PipelineKind::Solid,
            RenderMode::Wireframe => PipelineKind::Line,
            RenderMode::Points => if has_point_pipeline {
                PipelineKind::Point
            } else {
                PipelineKind::Solid
            },
        }
    };
    let trail = if c.anim.rotation_trail && is_selected {
        Some(if is_line { PipelineKind::Line } else { PipelineKind::Solid })
    } else {
        None
    };
    DrawPlan {
        pipeline,
        use_lighting: c.view.lighting_enabled && c.view.render_mode == RenderMode::Solid && !is_line,
        show_normals: c.panels.show_normals && is_selected && !is_line,
        trail,
    }
}

/// How an object is drawn, in terms of the settings: lighting is used
/// exactly when it is switched on, the mode is Solid and the shape is not the
/// torus outline; normal shading exactly for the selected object when normals
/// are shown and it is not the torus; the torus always takes the line
/// pipeline, other shapes the one of the render mode (points falling back to
/// solid without point support); the trail is drawn exactly for the selected
/// object while the trail is on, lines for the torus, solid otherwise.
pub proof fn lemma_draw_plan_rules(c: Controls, shape: ShapeKind, sel: bool, pp: bool)
    ensures
        ({
            let d = draw_plan(c, shape, sel, pp);
            let torus = shape == ShapeKind::Torus;
            &&& d.use_lighting <==> (c.view.lighting_enabled && c.view.render_mode == RenderMode::Solid && !torus)
            &&& !c.view.lighting_enabled ==> !d.use_lighting
            &&& d.show_normals <==> (c.panels.show_normals && sel && !torus)
            &&& torus ==> d.pipeline == PipelineKind::Line
            &&& (!torus && c.view.render_mode == RenderMode::Solid) ==> d.pipeline == PipelineKind::Solid
            &&& (!torus && c.view.render_mode == RenderMode::Wireframe) ==> d.pipeline == PipelineKind::Line
            &&& (!torus && c.view.render_mode == RenderMode::Points) ==> d.pipeline == (if pp {
                PipelineKind::Point
            } else {
                PipelineKind::Solid
            })
            &&& (d.trail is Some) <==> (c.anim.rotation_trail && sel)
            &&& d.trail is Some ==> d.trail == Some(if torus { PipelineKind::Line } else { PipelineKind::Solid })
            &&& d.use_lighting ==> d.pipeline == PipelineKind::Solid
            &&& d.pipeline == PipelineKind::Point ==> pp
        }),
{
}

// ---------------------------------------------------------------- screenshots

/// Bytes per pixel of the screenshot (RGBA8).
pub const BYTES_PER_PIXEL: u32 = 4;

/// `x` rounded up to a multiple of `align`.
pub open spec fn round_up(x: int, align: int) -> int {
    ((x + align - 1) / align) * align
}

/// The layout of the buffer a frame is copied into for a screenshot.
#[derive(Debug, Clone, Copy, PartialEq, Eq, Structural)]
pub struct ScreenshotLayout {
    pub width: u32,
    pub height: u32,
    /// Bytes of pixel data per row.
    pub unpadded_row: u32,
    /// Bytes per row in the buffer, a multiple of the copy alignment.
    pub padded_row: u32,
    pub buffer_size: u64,
}

proof fn lemma_round_up(x: int, align: int)
    requires
        x >= 0,
        align > 0,
    ensures
        round_up(x, align) % align == 0,
        x <= round_up(x, align) < x + align,
        round_up(x, align) >= 0,
{
    lemma_fundamental_div_mod(x + align - 1, align);
    lemma_mod_multiples_basic((x + align - 1) / align, align);
    assert(((x + align - 1) / align) * align == align * ((x + align - 1) / align)) by (nonlinear_arith);
}

/// The buffer layout for a screenshot of a `width`×`height` surface whose
/// copy rows must be aligned to `align` bytes. Rounding up adds `align`
/// before subtracting 1, so that sum has to fit in a `u32`.
pub fn screenshot_layout(width: u32, height: u32, align: u32) -> (l: ScreenshotLayout)
    requires
        align > 0,
        width * BYTES_PER_PIXEL + align <= u32::MAX,
        round_up(width * BYTES_PER_PIXEL, align as int) * height <= u32::MAX,
    ensures
        l.width == width,
        l.height == height,
        l.unpadded_row == width * BYTES_PER_PIXEL,
        l.padded_row == round_up(width * BYTES_PER_PIXEL, align as int),
        l.padded_row % align == 0,
        l.unpadded_row <= l.padded_row < l.unpadded_row + align,
        l.buffer_size == l.padded_row * height,
{
    let unpadded = width * BYTES_PER_PIXEL;
    proof {
        lemma_round_up(unpadded as int, align as int);
    }
    let q = (unpadded + align - 1) / align;
    assert(q * align == round_up(unpadded as int, align as int));
    let padded = q * align;
    let buffer_size = (padded * height) as u64;
    ScreenshotLayout { width, height, unpadded_row: width * BYTES_PER_PIXEL, padded_row: padded, buffer_size }
}

/// Where byte `c` of row `row` lands in the tightly packed image.
pub open spec fn packed_slot(row: int, c: int, unpadded: int) -> int {
    row * unpadded + c
}

proof fn lemma_row_order(r2: int, c2: int, row: int, unpadded: int)
    by (nonlinear_arith)
    requires
        0 <= r2 < row,
        0 <= c2 < unpadded,
    ensures
        r2 * unpadded + c2 < row * unpadded,
{
}

/// Copies the pixel rows out of the mapped screenshot buffer, dropping the
/// padding at the end of each row.
pub fn unpad_rows(data: &[u8], layout: &ScreenshotLayout) -> (pixels: Vec<u8>)
    requires
        layout.unpadded_row <= layout.padded_row,
        layout.width * layout.height * 4 <= u32::MAX,
        layout.padded_row * layout.height <= u32::MAX,
        layout.height == 0 || (layout.height - 1) * layout.padded_row + layout.unpadded_row <= data@.len(),
    ensures
        pixels@.len() == layout.height * layout.unpadded_row,
        forall|row: int, c: int|
            0 <= row < layout.height && 0 <= c < layout.unpadded_row ==> #[trigger] pixels@[packed_slot(
                row,
                c,
                layout.unpadded_row as int,
            )] == data@[row * layout.padded_row + c],
{
    let height = layout.height;
    let padded = layout.padded_row;
    let unpadded = layout.unpadded_row;
    let ghost u = unpadded as int;
    let mut pixels: Vec<u8> = Vec::new();
    let mut row: u32 = 0;
    while row < height
        invariant
            height == layout.height,
            padded == layout.padded_row,
            unpadded == layout.unpadded_row,
            u == unpadded,
            unpadded <= padded,
            padded * height <= u32::MAX,
            height == 0 || (height - 1) * padded + unpadded <= data@.len(),
            row <= height,
            pixels@.len() == row * u,
            forall|r2: int, c2: int|
                0 <= r2 < row && 0 <= c2 < u ==> #[trigger] pixels@[packed_slot(r2, c2, u)] == data@[r2
                    * padded + c2],
        decreases height - row,
    {
        proof {
            assert(row * padded <= (height - 1) * padded) by (nonlinear_arith)
                requires
                    row < height,
            ;
            assert((height - 1) * padded <= padded * height) by (nonlinear_arith)
                requires
                    height >= 1,
            ;
        }
        let data_len = data.len();
        assert(row * padded + unpadded <= data_len);
        let start = (row * padded) as usize;
        let end = start + unpadded as usize;
        let mut k: usize = start;
        while k < end
            invariant
                start == row * padded,
                end == start + unpadded,
                end <= data@.len(),
                start <= k <= end,
                row < height,
                u == unpadded,
                unpadded <= padded,
                pixels@.len() == row * u + (k - start),
                forall|r2: int, c2: int|
                    0 <= r2 < row && 0 <= c2 < u ==> #[trigger] pixels@[packed_slot(r2, c2, u)]
                        == data@[r2 * padded + c2],
                forall|c2: int|
                    0 <= c2 < k - start ==> #[trigger] pixels@[packed_slot(row as int, c2, u)]
                        == data@[row * padded + c2],
            decreases end - k,
        {
            let ghost before = pixels@;
            pixels.push(data[k]);
            proof {
                assert forall|r2: int, c2: int|
                    0 <= r2 < row && 0 <= c2 < u implies #[trigger] pixels@[packed_slot(r2, c2, u)]
                        == data@[r2 * padded + c2] by {
                    lemma_row_order(r2, c2, row as int, u);
                    assert(before[packed_slot(r2, c2, u)] == pixels@[packed_slot(r2, c2, u)]);
                }
                assert forall|c2: int|
                    0 <= c2 < k + 1 - start implies #[trigger] pixels@[packed_slot(row as int, c2, u)]
                        == data@[row * padded + c2] by {
                    if c2 < k - start {
                        assert(before[packed_slot(row as int, c2, u)] == pixels@[packed_slot(row as int, c2, u)]);
                    }
                }
            }
            k = k + 1;
        }
        proof {
            assert((row + 1) * u == row * u + u) by (nonlinear_arith);
        }
        row = row + 1;
    }
    pixels
}

} // verus!
