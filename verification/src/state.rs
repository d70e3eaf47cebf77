use vstd::prelude::*;

verus! {

/// The graphics API that the user asks for.
#[derive(Debug, Clone, Copy, PartialEq, Eq, Structural)]
pub enum BackendChoice {
    Auto,
    Vulkan,
    Metal,
    Dx12,
    OpenGl,
    WebGpu,
}

/// How the scene objects are rasterised.
#[derive(Debug, Clone, Copy, PartialEq, Eq, Structural)]
pub enum RenderMode {
    Solid,
    Wireframe,
    Points,
}

/// The primitive that a scene object is drawn as.
#[derive(Debug, Clone, Copy, PartialEq, Eq, Structural)]
pub enum ShapeKind {
    Cube,
    Sphere,
    Pyramid,
    Torus,
}

/// The camera projection.
#[derive(Debug, Clone, Copy, PartialEq, Eq, Structural)]
pub enum ProjectionMode {
    Perspective,
    Orthographic,
}

/// The label shown for a backend choice in the selector.
pub open spec fn backend_label(c: BackendChoice) -> Seq<char> {
    match c {
        BackendChoice::Auto => "Auto (best available)"@,
        BackendChoice::Vulkan => "Vulkan"@,
        BackendChoice::Metal => "Metal"@,
        BackendChoice::Dx12 => "DirectX 12"@,
        BackendChoice::OpenGl => "OpenGL"@,
        BackendChoice::WebGpu => "WebGPU"@,
    }
}

/// The label shown for a shape in the object editor.
pub open spec fn shape_label(s: ShapeKind) -> Seq<char> {
    match s {
        ShapeKind::Cube => "Cube"@,
        ShapeKind::Sphere => "Sphere"@,
        ShapeKind::Pyramid => "Pyramid"@,
        ShapeKind::Torus => "Torus (outline)"@,
    }
}

impl BackendChoice {
    pub fn label(&self) -> (r: &'static str)
        ensures
            r@ == backend_label(*self),
    {
        match self {
            BackendChoice::Auto => "Auto (best available)",
            BackendChoice::Vulkan => "Vulkan",
            BackendChoice::Metal => "Metal",
            BackendChoice::Dx12 => "DirectX 12",
            BackendChoice::OpenGl => "OpenGL",
            BackendChoice::WebGpu => "WebGPU",
        }
    }
}

impl ShapeKind {
    pub fn label(&self) -> (r: &'static str)
        ensures
            r@ == shape_label(*self),
    {
        match self {
            ShapeKind::Cube => "Cube",
            ShapeKind::Sphere => "Sphere",
            ShapeKind::Pyramid => "Pyramid",
            ShapeKind::Torus => "Torus (outline)",
        }
    }
}

/// The keys that the viewer reacts to; every other key is `Other`.
#[derive(Debug, Clone, Copy, PartialEq, Eq, Structural)]
pub enum Key {
    S,
    D,
    H,
    P,
    Space,
    R,
    F11,
    F5,
    Escape,
    Other,
}

/// How the viewer was started and which backend the user picked.
#[derive(Debug, Clone, Copy)]
pub struct LaunchState {
    /// The backend selector is still shown.
    pub startup_phase: bool,
    pub backend_choice: BackendChoice,
    /// A launch that the next frame has to act on.
    pub pending_backend: Option<BackendChoice>,
}

/// The rendering settings that are switched on and off.
#[derive(Debug, Clone, Copy)]
pub struct ViewSettings {
    pub render_mode: RenderMode,
    pub projection_mode: ProjectionMode,
    pub msaa_enabled: bool,
    pub vsync_enabled: bool,
    pub face_culling: bool,
    pub depth_display: bool,
    pub lighting_enabled: bool,
    pub dark_theme: bool,
}

/// Which panels, dialogs and overlays are shown.
#[derive(Debug, Clone, Copy)]
pub struct Panels {
    pub show_debug: bool,
    pub show_axes: bool,
    pub show_grid: bool,
    pub show_normals: bool,
    pub show_settings: bool,
    pub show_keyboard_help: bool,
    pub show_info_dialog: bool,
    pub show_perf_graph: bool,
}

/// The animation switches.
#[derive(Debug, Clone, Copy)]
pub struct Animation {
    pub auto_rotate: bool,
    pub paused: bool,
    pub rotation_trail: bool,
    pub trail_len: usize,
}

/// Work that the UI or the keyboard asked for and a later frame carries out.
#[derive(Debug, Clone, Copy)]
pub struct Requests {
    pub screenshot_requested: bool,
    pub fullscreen_requested: bool,
    pub fullscreen_active: bool,
    pub reset_rotation_requested: bool,
    /// The camera goes back to its default position on the next frame.
    pub reset_camera_requested: bool,
    pub pipeline_dirty: bool,
    pub mesh_dirty: bool,
}

/// The discrete part of the viewer's state: flags, modes, requests and the
/// values that are counted rather than measured.
#[derive(Debug, Clone, Copy)]
pub struct Controls {
    pub launch: LaunchState,
    pub view: ViewSettings,
    pub panels: Panels,
    pub anim: Animation,
    pub requests: Requests,
    /// The left button drags (rotates the selected object).
    pub mouse_drag: bool,
    /// The right button drags (pans the camera).
    pub pan_drag: bool,
    pub resolution_width: u32,
    pub resolution_height: u32,
}

/// The view settings the viewer starts with.
pub open spec fn initial_view() -> ViewSettings {
    ViewSettings {
        render_mode: RenderMode::Solid,
        projection_mode: ProjectionMode::Perspective,
        msaa_enabled: true,
        vsync_enabled: true,
        face_culling: true,
        depth_display: true,
        lighting_enabled: true,
        dark_theme: true,
    }
}

/// The panels the viewer starts with.
pub open spec fn initial_panels() -> Panels {
    Panels {
        show_debug: false,
        show_axes: true,
        show_grid: true,
        show_normals: false,
        show_settings: true,
        show_keyboard_help: false,
        show_info_dialog: false,
        show_perf_graph: false,
    }
}

/// The animation switches the viewer starts with.
pub open spec fn initial_animation() -> Animation {
    Animation { auto_rotate: true, paused: false, rotation_trail: false, trail_len: 8 }
}

/// The state the viewer starts in.
pub open spec fn initial_controls() -> Controls {
    Controls {
        launch: LaunchState {
            startup_phase: true,
            backend_choice: BackendChoice::Auto,
            pending_backend: None,
        },
        view: initial_view(),
        panels: initial_panels(),
        anim: initial_animation(),
        requests: Requests {
            screenshot_requested: false,
            fullscreen_requested: false,
            fullscreen_active: false,
            reset_rotation_requested: false,
            reset_camera_requested: false,
            pipeline_dirty: false,
            mesh_dirty: false,
        },
        mouse_drag: false,
        pan_drag: false,
        resolution_width: 1280,
        resolution_height: 720,
    }
}

/// The keys whose only effect is to flip one flag.
pub open spec fn is_toggle_key(k: Key) -> bool {
    k == Key::S || k == Key::D || k == Key::H || k == Key::P || k == Key::Space
}

impl Controls {
    /// The state after a key press that the UI did not consume.
    #[verifier::opaque]
    pub open spec fn after_key(self, key: Key) -> Controls {
        let p = self.panels;
        let a = self.anim;
        let r = self.requests;
        match key {
            Key::S => Controls { panels: Panels { show_settings: !p.show_settings, ..p }, ..self },
            Key::D => Controls { panels: Panels { show_debug: !p.show_debug, ..p }, ..self },
            Key::H => Controls {
                panels: Panels { show_keyboard_help: !p.show_keyboard_help, ..p },
                ..self
            },
            Key::P | Key::Space => Controls { anim: Animation { paused: !a.paused, ..a }, ..self },
            Key::R => Controls {
                requests: Requests { reset_camera_requested: true, ..r },
                ..self
            },
            Key::F11 => Controls { requests: Requests { fullscreen_requested: true, ..r }, ..self },
            Key::F5 => Controls { requests: Requests { screenshot_requested: true, ..r }, ..self },
            Key::Escape => Controls {
                panels: Panels { show_keyboard_help: false, show_info_dialog: false, ..p },
                ..self
            },
            Key::Other => self,
        }
    }

    /// The state after "Reset All Settings": the view settings go back to
    /// their initial values and both pipelines and meshes are rebuilt.
    pub open spec fn after_reset(self) -> Controls {
        let v = initial_view();
        let p = initial_panels();
        let a = initial_animation();
        Controls {
            view: ViewSettings {
                render_mode: v.render_mode,
                projection_mode: v.projection_mode,
                lighting_enabled: v.lighting_enabled,
                ..self.view
            },
            panels: Panels {
                show_axes: p.show_axes,
                show_grid: p.show_grid,
                show_normals: p.show_normals,
                ..self.panels
            },
            anim: Animation { auto_rotate: a.auto_rotate, paused: a.paused, ..self.anim },
            requests: Requests { pipeline_dirty: true, mesh_dirty: true, ..self.requests },
            ..self
        }
    }

    /// The state after the "Launch" action of the backend selector.
    pub open spec fn after_launch(self) -> Controls {
        Controls {
            launch: LaunchState {
                pending_backend: Some(self.launch.backend_choice),
                startup_phase: false,
                ..self.launch
            },
            ..self
        }
    }

    /// The state when the program starts on a backend forced from outside:
    /// the selector is skipped.
    pub open spec fn after_forced_start(self, b: BackendChoice) -> Controls {
        Controls {
            launch: LaunchState { backend_choice: b, startup_phase: false, ..self.launch },
            ..self
        }
    }

    /// The state after a settings switch that the pipelines depend on was set
    /// to `on`: a change marks the pipelines for rebuilding.
    pub open spec fn after_pipeline_setting(self, view: ViewSettings, old_value: bool, on: bool) -> Controls {
        Controls {
            view,
            requests: Requests {
                pipeline_dirty: self.requests.pipeline_dirty || old_value != on,
                ..self.requests
            },
            ..self
        }
    }

    pub fn new() -> (c: Controls)
        ensures
            c == initial_controls(),
    {
        Controls {
            launch: LaunchState {
                startup_phase: true,
                backend_choice: BackendChoice::Auto,
                pending_backend: None,
            },
            view: ViewSettings {
                render_mode: RenderMode::Solid,
                projection_mode: ProjectionMode::Perspective,
                msaa_enabled: true,
                vsync_enabled: true,
                face_culling: true,
                depth_display: true,
                lighting_enabled: true,
                dark_theme: true,
            },
            panels: Panels {
                show_debug: false,
                show_axes: true,
                show_grid: true,
                show_normals: false,
                show_settings: true,
                show_keyboard_help: false,
                show_info_dialog: false,
                show_perf_graph: false,
            },
            anim: Animation { auto_rotate: true, paused: false, rotation_trail: false, trail_len: 8 },
            requests: Requests {
                screenshot_requested: false,
                fullscreen_requested: false,
                fullscreen_active: false,
                reset_rotation_requested: false,
                reset_camera_requested: false,
                pipeline_dirty: false,
                mesh_dirty: false,
            },
            mouse_drag: false,
            pan_drag: false,
            resolution_width: 1280,
            resolution_height: 720,
        }
    }

    /// Applies a key press that the UI did not consume.
    pub fn handle_key(&mut self, key: Key)
        ensures
            *final(self) == old(self).after_key(key),
    {
        proof {
            reveal(Controls::after_key);
        }
        let c = *self;
        let p = c.panels;
        let a = c.anim;
        let r = c.requests;
        let next = match key {
            Key::S => Controls { panels: Panels { show_settings: !p.show_settings, ..p }, ..c },
            Key::D => Controls { panels: Panels { show_debug: !p.show_debug, ..p }, ..c },
            Key::H => Controls {
                panels: Panels { show_keyboard_help: !p.show_keyboard_help, ..p },
                ..c
            },
            Key::P | Key::Space => Controls { anim: Animation { paused: !a.paused, ..a }, ..c },
            Key::R => Controls { requests: Requests { reset_camera_requested: true, ..r }, ..c },
            Key::F11 => Controls { requests: Requests { fullscreen_requested: true, ..r }, ..c },
            Key::F5 => Controls { requests: Requests { screenshot_requested: true, ..r }, ..c },
            Key::Escape => Controls {
                panels: Panels { show_keyboard_help: false, show_info_dialog: false, ..p },
                ..c
            },
            Key::Other => c,
        };
        *self = next;
    }

    /// Resets the view settings; the caller resets the measured values and
    /// the selected object's placement.
    pub fn reset_all(&mut self)
        ensures
            *final(self) == old(self).after_reset(),
    {
        let fresh = Controls::new();
        self.view.render_mode = fresh.view.render_mode;
        self.view.projection_mode = fresh.view.projection_mode;
        self.view.lighting_enabled = fresh.view.lighting_enabled;
        self.anim.auto_rotate = fresh.anim.auto_rotate;
        self.anim.paused = fresh.anim.paused;
        self.panels.show_axes = fresh.panels.show_axes;
        self.panels.show_grid = fresh.panels.show_grid;
        self.panels.show_normals = fresh.panels.show_normals;
        self.requests.pipeline_dirty = true;
        self.requests.mesh_dirty = true;
    }

    /// Starts on the backend given from outside, without the selector.
    pub fn start_forced(&mut self, b: BackendChoice)
        ensures
            *final(self) == old(self).after_forced_start(b),
    {
        self.launch.backend_choice = b;
        self.launch.startup_phase = false;
    }

    /// The "VSync" switch.
    pub fn set_vsync(&mut self, on: bool)
        ensures
            *final(self) == old(self).after_pipeline_setting(
                (ViewSettings { vsync_enabled: on, ..old(self).view }),
                old(self).view.vsync_enabled,
                on,
            ),
    {
        if self.view.vsync_enabled != on {
            self.view.vsync_enabled = on;
            self.requests.pipeline_dirty = true;
        }
    }

    /// The "Face Culling" switch.
    pub fn set_face_culling(&mut self, on: bool)
        ensures
            *final(self) == old(self).after_pipeline_setting(
                (ViewSettings { face_culling: on, ..old(self).view }),
                old(self).view.face_culling,
                on,
            ),
    {
        if self.view.face_culling != on {
            self.view.face_culling = on;
            self.requests.pipeline_dirty = true;
        }
    }

    /// The "MSAA" switch.
    pub fn set_msaa(&mut self, on: bool)
        ensures
            *final(self) == old(self).after_pipeline_setting(
                (ViewSettings { msaa_enabled: on, ..old(self).view }),
                old(self).view.msaa_enabled,
                on,
            ),
    {
        if self.view.msaa_enabled != on {
            self.view.msaa_enabled = on;
            self.requests.pipeline_dirty = true;
        }
    }

    /// Picks a backend in the selector.
    pub fn select_backend(&mut self, b: BackendChoice)
        ensures
            *final(self) == (Controls {
                launch: LaunchState { backend_choice: b, ..old(self).launch },
                ..*old(self)
            }),
    {
        self.launch.backend_choice = b;
    }

    /// Picks how objects are rasterised.
    pub fn set_render_mode(&mut self, m: RenderMode)
        ensures
            *final(self) == (Controls { view: ViewSettings { render_mode: m, ..old(self).view }, ..*old(self) }),
    {
        self.view.render_mode = m;
    }

    /// Picks the camera projection.
    pub fn set_projection_mode(&mut self, m: ProjectionMode)
        ensures
            *final(self) == (Controls {
                view: ViewSettings { projection_mode: m, ..old(self).view },
                ..*old(self)
            }),
    {
        self.view.projection_mode = m;
    }

    /// The "Pause" / "Resume" button: the same as the pause key.
    pub fn toggle_pause(&mut self)
        ensures
            *final(self) == old(self).after_key(Key::P),
    {
        self.handle_key(Key::P);
    }

    /// The rotation "Reset" button: the next running frame puts the selected
    /// object's rotation back to zero and clears the trail.
    pub fn request_rotation_reset(&mut self)
        ensures
            *final(self) == (Controls {
                requests: Requests { reset_rotation_requested: true, ..old(self).requests },
                ..*old(self)
            }),
    {
        self.requests.reset_rotation_requested = true;
    }

    /// A shape or colour of the selected object changed: the next running
    /// frame rebuilds the meshes.
    pub fn request_mesh_rebuild(&mut self)
        ensures
            *final(self) == (Controls {
                requests: Requests { mesh_dirty: true, ..old(self).requests },
                ..*old(self)
            }),
    {
        self.requests.mesh_dirty = true;
    }

    /// The selector's "Launch" action (button or Enter).
    pub fn launch(&mut self)
        ensures
            *final(self) == old(self).after_launch(),
    {
        self.launch.pending_backend = Some(self.launch.backend_choice);
        self.launch.startup_phase = false;
    }
}

proof fn lemma_each_toggle_key_twice(c: Controls)
    ensures
        c.after_key(Key::S).after_key(Key::S) == c,
        c.after_key(Key::D).after_key(Key::D) == c,
        c.after_key(Key::H).after_key(Key::H) == c,
        c.after_key(Key::P).after_key(Key::P) == c,
        c.after_key(Key::Space).after_key(Key::Space) == c,
{
    reveal(Controls::after_key);
}

/// Pressing a toggle key twice leaves the state as it was.
pub proof fn lemma_toggle_key_twice(c: Controls, k: Key)
    requires
        is_toggle_key(k),
    ensures
        c.after_key(k).after_key(k) == c,
{
    lemma_each_toggle_key_twice(c);
}

/// "P" and "Space" both pause and resume: one after the other restores the state.
pub proof fn lemma_pause_keys_agree(c: Controls)
    ensures
        c.after_key(Key::P) == c.after_key(Key::Space),
        c.after_key(Key::P).after_key(Key::Space) == c,
{
    reveal(Controls::after_key);
}

/// Escape closes both dialogs, whatever was open.
pub proof fn lemma_escape_closes_dialogs(c: Controls)
    ensures
        !c.after_key(Key::Escape).panels.show_keyboard_help,
        !c.after_key(Key::Escape).panels.show_info_dialog,
{
    reveal(Controls::after_key);
}

/// Resetting twice is the same as resetting once.
pub proof fn lemma_reset_idempotent(c: Controls)
    ensures
        c.after_reset().after_reset() == c.after_reset(),
{
}

/// The viewer starts in the selector with the documented settings and with
/// nothing pending: no launch, no drag and no request of any kind.
pub proof fn lemma_initial_state()
    ensures
        ({
            let c = initial_controls();
            &&& c.launch.startup_phase
            &&& c.launch.backend_choice == BackendChoice::Auto
            &&& c.launch.pending_backend is None
            &&& !c.requests.screenshot_requested
            &&& !c.requests.fullscreen_requested
            &&& !c.requests.fullscreen_active
            &&& !c.requests.reset_rotation_requested
            &&& !c.requests.reset_camera_requested
            &&& !c.requests.pipeline_dirty
            &&& !c.requests.mesh_dirty
            &&& !c.mouse_drag
            &&& !c.pan_drag
            &&& c.view.render_mode == RenderMode::Solid
            &&& c.view.projection_mode == ProjectionMode::Perspective
            &&& c.view.msaa_enabled && c.view.vsync_enabled && c.view.face_culling
            &&& c.view.lighting_enabled && c.view.dark_theme && c.view.depth_display
            &&& c.anim.auto_rotate && !c.anim.paused && !c.anim.rotation_trail
            &&& c.anim.trail_len == 8
            &&& c.panels.show_settings && c.panels.show_axes && c.panels.show_grid
            &&& !c.panels.show_debug && !c.panels.show_normals && !c.panels.show_keyboard_help
            &&& !c.panels.show_info_dialog && !c.panels.show_perf_graph
            &&& c.resolution_width == 1280 && c.resolution_height == 720
        }),
{
}

/// A key without a shortcut changes nothing at all.
pub proof fn lemma_unbound_key_no_effect(c: Controls)
    ensures
        c.after_key(Key::Other) == c,
{
    reveal(Controls::after_key);
}

/// No key touches the launch state, the view settings, the animation
/// switches other than pause, the drags or the resolution; each shortcut
/// changes only the flags it names.
pub proof fn lemma_keys_touch_only_their_flags(c: Controls, k: Key)
    ensures
        c.after_key(k).launch == c.launch,
        c.after_key(k).view == c.view,
        c.after_key(k).anim.auto_rotate == c.anim.auto_rotate,
        c.after_key(k).anim.rotation_trail == c.anim.rotation_trail,
        c.after_key(k).anim.trail_len == c.anim.trail_len,
        c.after_key(k).mouse_drag == c.mouse_drag,
        c.after_key(k).pan_drag == c.pan_drag,
        c.after_key(k).resolution_width == c.resolution_width,
        c.after_key(k).resolution_height == c.resolution_height,
        c.after_key(k).requests.pipeline_dirty == c.requests.pipeline_dirty,
        c.after_key(k).requests.mesh_dirty == c.requests.mesh_dirty,
        c.after_key(k).requests.fullscreen_active == c.requests.fullscreen_active,
        c.after_key(k).requests.reset_rotation_requested == c.requests.reset_rotation_requested,
        (c.after_key(k).anim.paused != c.anim.paused) <==> (k == Key::P || k == Key::Space),
        (c.after_key(k).panels.show_settings != c.panels.show_settings) <==> k == Key::S,
        (c.after_key(k).panels.show_debug != c.panels.show_debug) <==> k == Key::D,
        k != Key::H && k != Key::Escape ==> c.after_key(k).panels.show_keyboard_help
            == c.panels.show_keyboard_help,
        k != Key::Escape ==> c.after_key(k).panels.show_info_dialog == c.panels.show_info_dialog,
        c.after_key(k).panels.show_axes == c.panels.show_axes,
        c.after_key(k).panels.show_grid == c.panels.show_grid,
        c.after_key(k).panels.show_normals == c.panels.show_normals,
        c.after_key(k).panels.show_perf_graph == c.panels.show_perf_graph,
        k != Key::R ==> c.after_key(k).requests.reset_camera_requested == c.requests.reset_camera_requested,
        k != Key::F11 ==> c.after_key(k).requests.fullscreen_requested == c.requests.fullscreen_requested,
        k != Key::F5 ==> c.after_key(k).requests.screenshot_requested == c.requests.screenshot_requested,
        k == Key::R ==> c.after_key(k).requests.reset_camera_requested,
        k == Key::F11 ==> c.after_key(k).requests.fullscreen_requested,
        k == Key::F5 ==> c.after_key(k).requests.screenshot_requested,
        k == Key::H ==> c.after_key(k).panels.show_keyboard_help == !c.panels.show_keyboard_help,
{
    reveal(Controls::after_key);
}

/// "Reset All Settings" puts render mode, projection, lighting, rotation,
/// pause and the axes, grid and normals overlays back to their start values,
/// marks pipelines and meshes for rebuilding, and keeps everything else.
pub proof fn lemma_reset_values(c: Controls)
    ensures
        c.after_reset().view.render_mode == RenderMode::Solid,
        c.after_reset().view.projection_mode == ProjectionMode::Perspective,
        c.after_reset().view.lighting_enabled,
        c.after_reset().anim.auto_rotate,
        !c.after_reset().anim.paused,
        c.after_reset().panels.show_axes,
        c.after_reset().panels.show_grid,
        !c.after_reset().panels.show_normals,
        c.after_reset().requests.pipeline_dirty,
        c.after_reset().requests.mesh_dirty,
        c.after_reset().launch == c.launch,
        c.after_reset().view.msaa_enabled == c.view.msaa_enabled,
        c.after_reset().view.vsync_enabled == c.view.vsync_enabled,
        c.after_reset().view.face_culling == c.view.face_culling,
        c.after_reset().view.dark_theme == c.view.dark_theme,
        c.after_reset().anim.rotation_trail == c.anim.rotation_trail,
        c.after_reset().anim.trail_len == c.anim.trail_len,
        c.after_reset().panels.show_settings == c.panels.show_settings,
        c.after_reset().panels.show_debug == c.panels.show_debug,
        c.after_reset().requests.screenshot_requested == c.requests.screenshot_requested,
        c.after_reset().requests.fullscreen_requested == c.requests.fullscreen_requested,
{
}

/// A pipeline switch takes the new value, marks the pipelines for
/// rebuilding exactly when the value changed (or a rebuild was pending),
/// and changes nothing else.
pub proof fn lemma_pipeline_switches(c: Controls, on: bool)
    ensures
        ({
            let v = c.after_pipeline_setting(
                (ViewSettings { vsync_enabled: on, ..c.view }),
                c.view.vsync_enabled,
                on,
            );
            &&& v.view.vsync_enabled == on
            &&& v.view.msaa_enabled == c.view.msaa_enabled
            &&& v.view.face_culling == c.view.face_culling
            &&& v.requests.pipeline_dirty == (c.requests.pipeline_dirty || c.view.vsync_enabled != on)
            &&& v.requests.mesh_dirty == c.requests.mesh_dirty
            &&& v.launch == c.launch && v.panels == c.panels && v.anim == c.anim
        }),
        ({
            let v = c.after_pipeline_setting(
                (ViewSettings { msaa_enabled: on, ..c.view }),
                c.view.msaa_enabled,
                on,
            );
            &&& v.view.msaa_enabled == on
            &&& v.requests.pipeline_dirty == (c.requests.pipeline_dirty || c.view.msaa_enabled != on)
            &&& v.launch == c.launch && v.panels == c.panels && v.anim == c.anim
        }),
        ({
            let v = c.after_pipeline_setting(
                (ViewSettings { face_culling: on, ..c.view }),
                c.view.face_culling,
                on,
            );
            &&& v.view.face_culling == on
            &&& v.requests.pipeline_dirty == (c.requests.pipeline_dirty || c.view.face_culling != on)
            &&& v.launch == c.launch && v.panels == c.panels && v.anim == c.anim
        }),
{
}

/// A forced start takes the given backend, skips the selector and touches
/// nothing else.
pub proof fn lemma_forced_start(c: Controls, b: BackendChoice)
    ensures
        c.after_forced_start(b).launch.backend_choice == b,
        !c.after_forced_start(b).launch.startup_phase,
        c.after_forced_start(b).launch.pending_backend == c.launch.pending_backend,
        c.after_forced_start(b).view == c.view,
        c.after_forced_start(b).panels == c.panels,
        c.after_forced_start(b).anim == c.anim,
        c.after_forced_start(b).requests == c.requests,
{
}

} // verus!
