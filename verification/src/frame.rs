use vstd::prelude::*;
use crate::state::{BackendChoice, Controls, Key, LaunchState, Requests, initial_controls};
use crate::backend::{
    AdapterBackend, choice_accepts, choice_for_env_key, choice_matches_backend, env_key_text,
    lemma_env_key_round_trip,
};

verus! {

/// What to do with the adapter that the selector runs on once a backend has
/// been launched.
#[derive(Debug, Clone, Copy, PartialEq, Eq, Structural)]
pub enum BackendSwitch {
    /// Nothing was launched (or the renderer already runs).
    Stay,
    /// Keep the adapter and its surface and build the full renderer on it.
    Upgrade,
    /// Restart the program on the given backend.
    Restart(BackendChoice),
}

/// The per-frame work of a running renderer that the flags call for.
#[derive(Debug, Clone, Copy, PartialEq, Eq, Structural)]
pub struct FrameActions {
    pub rebuild_pipelines: bool,
    pub rebuild_meshes: bool,
    pub auto_rotate: bool,
    pub reset_rotation: bool,
    /// Put the camera back at its default position.
    pub reset_camera: bool,
    pub record_trail: bool,
    /// `Some(on)`: switch fullscreen to `on`.
    pub set_fullscreen: Option<bool>,
}

impl Controls {
    /// The state after the frame consumed the launch request, and what to do.
    pub open spec fn switch_outcome(self, in_startup: bool, adapter: AdapterBackend) -> (Controls, BackendSwitch) {
        match self.launch.pending_backend {
            None => (self, BackendSwitch::Stay),
            Some(nb) => if in_startup {
                (
                    Controls {
                        launch: LaunchState { pending_backend: None, backend_choice: nb, ..self.launch },
                        ..self
                    },
                    if choice_accepts(nb, adapter) {
                        BackendSwitch::Upgrade
                    } else {
                        BackendSwitch::Restart(nb)
                    },
                )
            } else {
                (
                    Controls { launch: LaunchState { pending_backend: None, ..self.launch }, ..self },
                    BackendSwitch::Stay,
                )
            },
        }
    }

    /// The actions of one frame of the running renderer.
    pub open spec fn running_actions(self, is_fullscreen: bool, trail_due: bool) -> FrameActions {
        FrameActions {
            rebuild_pipelines: self.requests.pipeline_dirty,
            rebuild_meshes: self.requests.mesh_dirty,
            auto_rotate: !self.anim.paused && self.anim.auto_rotate,
            reset_rotation: self.requests.reset_rotation_requested,
            reset_camera: self.requests.reset_camera_requested,
            record_trail: self.anim.rotation_trail && trail_due,
            set_fullscreen: if self.requests.fullscreen_requested {
                Some(!is_fullscreen)
            } else {
                None
            },
        }
    }

    /// The state after one frame of the running renderer consumed its requests.
    pub open spec fn after_running_frame(self, is_fullscreen: bool) -> Controls {
        let r = self.requests;
        Controls {
            requests: Requests {
                pipeline_dirty: false,
                mesh_dirty: false,
                reset_rotation_requested: false,
                reset_camera_requested: false,
                fullscreen_requested: false,
                fullscreen_active: if r.fullscreen_requested {
                    !is_fullscreen
                } else {
                    r.fullscreen_active
                },
                ..r
            },
            ..self
        }
    }

    /// The state after a left-button event; `consumed` says the UI took it.
    pub open spec fn after_left_button(self, pressed: bool, consumed: bool) -> Controls {
        if !pressed {
            Controls { mouse_drag: false, ..self }
        } else if !consumed {
            Controls { mouse_drag: true, ..self }
        } else {
            self
        }
    }

    /// The state after a right-button event; `consumed` says the UI took it.
    pub open spec fn after_right_button(self, pressed: bool, consumed: bool) -> Controls {
        if !pressed {
            Controls { pan_drag: false, ..self }
        } else if !consumed {
            Controls { pan_drag: true, ..self }
        } else {
            self
        }
    }

    /// Takes the launch request at the start of a frame. `in_startup` says the
    /// selector still runs; `adapter` is the backend of its adapter.
    pub fn take_backend_switch(&mut self, in_startup: bool, adapter: AdapterBackend) -> (r: BackendSwitch)
        ensures
            (*final(self), r) == old(self).switch_outcome(in_startup, adapter),
    {
        match self.launch.pending_backend {
            None => BackendSwitch::Stay,
            Some(nb) => {
                self.launch.pending_backend = None;
                if in_startup {
                    self.launch.backend_choice = nb;
                    if choice_matches_backend(nb, adapter) {
                        BackendSwitch::Upgrade
                    } else {
                        BackendSwitch::Restart(nb)
                    }
                } else {
                    BackendSwitch::Stay
                }
            },
        }
    }

    /// Consumes the requests of one frame of the running renderer.
    /// `is_fullscreen` says whether the window is fullscreen now; `trail_due`
    /// says whether the trail interval has elapsed.
    pub fn plan_running_frame(&mut self, is_fullscreen: bool, trail_due: bool) -> (r: FrameActions)
        ensures
            r == old(self).running_actions(is_fullscreen, trail_due),
            *final(self) == old(self).after_running_frame(is_fullscreen),
    {
        let set_fullscreen = if self.requests.fullscreen_requested {
            self.requests.fullscreen_active = !is_fullscreen;
            Some(!is_fullscreen)
        } else {
            None
        };
        let actions = FrameActions {
            rebuild_pipelines: self.requests.pipeline_dirty,
            rebuild_meshes: self.requests.mesh_dirty,
            auto_rotate: !self.anim.paused && self.anim.auto_rotate,
            reset_rotation: self.requests.reset_rotation_requested,
            reset_camera: self.requests.reset_camera_requested,
            record_trail: self.anim.rotation_trail && trail_due,
            set_fullscreen,
        };
        self.requests.pipeline_dirty = false;
        self.requests.mesh_dirty = false;
        self.requests.reset_rotation_requested = false;
        self.requests.reset_camera_requested = false;
        self.requests.fullscreen_requested = false;
        actions
    }

    /// Records a left-button press or release.
    pub fn on_left_button(&mut self, pressed: bool, consumed: bool)
        ensures
            *final(self) == old(self).after_left_button(pressed, consumed),
    {
        if !pressed {
            self.mouse_drag = false;
        } else if !consumed {
            self.mouse_drag = true;
        }
    }

    /// Records a right-button press or release.
    pub fn on_right_button(&mut self, pressed: bool, consumed: bool)
        ensures
            *final(self) == old(self).after_right_button(pressed, consumed),
    {
        if !pressed {
            self.pan_drag = false;
        } else if !consumed {
            self.pan_drag = true;
        }
    }

    /// Whether a cursor move pans the camera.
    pub fn drag_pans(&self, consumed: bool) -> (r: bool)
        ensures
            r == (self.pan_drag && !consumed),
    {
        self.pan_drag && !consumed
    }

    /// Whether a cursor move rotates the selected object.
    pub fn drag_rotates(&self, consumed: bool) -> (r: bool)
        ensures
            r == (self.mouse_drag && !consumed),
    {
        self.mouse_drag && !consumed
    }

    /// Takes the screenshot request after the frame was rendered.
    pub fn take_screenshot_request(&mut self) -> (r: bool)
        ensures
            r == old(self).requests.screenshot_requested,
            *final(self) == (Controls {
                requests: Requests { screenshot_requested: false, ..old(self).requests },
                ..*old(self)
            }),
    {
        let r = self.requests.screenshot_requested;
        self.requests.screenshot_requested = false;
        r
    }
}

/// Launching from the selector and starting the next frame: the launched
/// choice becomes the backend, the adapter is kept exactly when it serves
/// that choice, and otherwise the program restarts on that choice. With
/// `Auto` the adapter is always kept.
pub proof fn lemma_launch_then_switch(c: Controls, adapter: AdapterBackend)
    ensures
        ({
            let (c2, sw) = c.after_launch().switch_outcome(true, adapter);
            &&& c2.launch.backend_choice == c.launch.backend_choice
            &&& c2.launch.pending_backend is None
            &&& !c2.launch.startup_phase
            &&& (sw == BackendSwitch::Upgrade <==> choice_accepts(c.launch.backend_choice, adapter))
            &&& (!choice_accepts(c.launch.backend_choice, adapter) ==> sw == BackendSwitch::Restart(
                c.launch.backend_choice,
            ))
            &&& (c.launch.backend_choice == BackendChoice::Auto ==> sw == BackendSwitch::Upgrade)
        }),
{
}

/// A launch that needs another backend restarts the program with an
/// environment key that selects exactly the launched choice.
pub proof fn lemma_restart_selects_launched_choice(c: Controls, adapter: AdapterBackend)
    requires
        !choice_accepts(c.launch.backend_choice, adapter),
    ensures
        c.after_launch().switch_outcome(true, adapter).1 matches BackendSwitch::Restart(nb)
            && choice_for_env_key(env_key_text(nb)) == Some(c.launch.backend_choice),
{
    lemma_env_key_round_trip(c.launch.backend_choice);
}

/// Without a launch request a frame neither switches nor changes anything.
pub proof fn lemma_no_request_no_switch(c: Controls, in_startup: bool, adapter: AdapterBackend)
    requires
        c.launch.pending_backend is None,
    ensures
        c.switch_outcome(in_startup, adapter) == (c, BackendSwitch::Stay),
{
}

/// A launch request that reaches a running renderer changes nothing but the
/// request itself.
pub proof fn lemma_switch_when_running(c: Controls, adapter: AdapterBackend)
    ensures
        c.switch_outcome(false, adapter).1 == BackendSwitch::Stay,
        c.switch_outcome(false, adapter).0.launch.backend_choice == c.launch.backend_choice,
        c.switch_outcome(false, adapter).0.launch.pending_backend is None,
{
}

/// "R" puts the camera back at its default position on the next frame of
/// the running renderer, once, and leaves the object's rotation alone.
pub proof fn lemma_reset_key_resets_camera_next_frame(c: Controls, fs: bool, trail_due: bool)
    ensures
        c.after_key(Key::R).running_actions(fs, trail_due).reset_camera,
        !c.after_key(Key::R).after_running_frame(fs).running_actions(fs, trail_due).reset_camera,
        c.after_key(Key::R).running_actions(fs, trail_due).reset_rotation == c.running_actions(
            fs,
            trail_due,
        ).reset_rotation,
{
    reveal(Controls::after_key);
}

/// A left drag rotates and a right drag pans, each only while its button is
/// held and the UI does not take the events.
pub proof fn lemma_drags(c: Controls, consumed: bool)
    ensures
        c.after_left_button(true, false).mouse_drag,
        !c.after_left_button(false, consumed).mouse_drag,
        c.after_right_button(true, false).pan_drag,
        !c.after_right_button(false, consumed).pan_drag,
        c.after_left_button(true, consumed).pan_drag == c.pan_drag,
        c.after_right_button(true, consumed).mouse_drag == c.mouse_drag,
{
}

/// "F11" switches fullscreen on the next frame: off when on, on when off.
pub proof fn lemma_fullscreen_key_toggles(c: Controls, fs: bool, trail_due: bool)
    ensures
        c.after_key(Key::F11).running_actions(fs, trail_due).set_fullscreen == Some(!fs),
        c.after_key(Key::F11).after_running_frame(fs).requests.fullscreen_active == !fs,
{
    reveal(Controls::after_key);
}

/// "P" stops the automatic rotation of a running viewer that was rotating,
/// and "P" again resumes it.
pub proof fn lemma_pause_key_stops_rotation(c: Controls, fs: bool, trail_due: bool)
    requires
        c.running_actions(fs, trail_due).auto_rotate,
    ensures
        !c.after_key(Key::P).running_actions(fs, trail_due).auto_rotate,
        c.after_key(Key::P).after_key(Key::P).running_actions(fs, trail_due).auto_rotate,
{
    reveal(Controls::after_key);
}

/// "F5" makes the next rendered frame a screenshot, taken once.
pub proof fn lemma_screenshot_key(c: Controls)
    ensures
        c.after_key(Key::F5).requests.screenshot_requested,
{
    reveal(Controls::after_key);
}

/// "Reset All Settings" makes the next running frame rebuild pipelines and meshes.
pub proof fn lemma_reset_all_rebuilds(c: Controls, fs: bool, trail_due: bool)
    ensures
        c.after_reset().running_actions(fs, trail_due).rebuild_pipelines,
        c.after_reset().running_actions(fs, trail_due).rebuild_meshes,
        !c.after_reset().after_running_frame(fs).requests.pipeline_dirty,
        !c.after_reset().after_running_frame(fs).requests.mesh_dirty,
{
}

/// A running frame consumes the requests it acts on (rebuilds, rotation and
/// camera resets, fullscreen) and nothing else: in particular a screenshot
/// request survives until the frame has been rendered, and the settings,
/// panels, animation switches, launch state and drags are unchanged.
pub proof fn lemma_running_frame_keeps_the_rest(c: Controls, fs: bool)
    ensures
        c.after_running_frame(fs).requests.screenshot_requested == c.requests.screenshot_requested,
        c.after_running_frame(fs).launch == c.launch,
        c.after_running_frame(fs).view == c.view,
        c.after_running_frame(fs).panels == c.panels,
        c.after_running_frame(fs).anim == c.anim,
        c.after_running_frame(fs).mouse_drag == c.mouse_drag,
        c.after_running_frame(fs).pan_drag == c.pan_drag,
        !c.after_running_frame(fs).requests.pipeline_dirty,
        !c.after_running_frame(fs).requests.mesh_dirty,
        !c.after_running_frame(fs).requests.reset_rotation_requested,
        !c.after_running_frame(fs).requests.reset_camera_requested,
        !c.after_running_frame(fs).requests.fullscreen_requested,
        !c.requests.fullscreen_requested ==> c.after_running_frame(fs).requests.fullscreen_active
            == c.requests.fullscreen_active,
{
}

/// "F5" during a running viewer: the frame is planned, rendered, and then
/// the screenshot is taken, once.
pub proof fn lemma_screenshot_survives_frame(c: Controls, fs: bool)
    ensures
        c.after_key(Key::F5).after_running_frame(fs).requests.screenshot_requested,
{
    lemma_running_frame_keeps_the_rest(c.after_key(Key::F5), fs);
    reveal(Controls::after_key);
}

/// What a running frame does follows its inputs: each action is taken
/// exactly when it was asked for, rotation runs exactly when it is on and not
/// paused, the trail is recorded exactly when it is on and due, and
/// fullscreen is switched to the opposite of the current state exactly when
/// it was requested.
pub proof fn lemma_running_actions(c: Controls, fs: bool, trail_due: bool)
    ensures
        c.running_actions(fs, trail_due).rebuild_pipelines == c.requests.pipeline_dirty,
        c.running_actions(fs, trail_due).rebuild_meshes == c.requests.mesh_dirty,
        c.running_actions(fs, trail_due).reset_rotation == c.requests.reset_rotation_requested,
        c.running_actions(fs, trail_due).reset_camera == c.requests.reset_camera_requested,
        c.running_actions(fs, trail_due).auto_rotate == (c.anim.auto_rotate && !c.anim.paused),
        c.running_actions(fs, trail_due).record_trail == (c.anim.rotation_trail && trail_due),
        c.requests.fullscreen_requested ==> c.running_actions(fs, trail_due).set_fullscreen == Some(!fs),
        !c.requests.fullscreen_requested ==> c.running_actions(fs, trail_due).set_fullscreen is None,
{
}

/// The first running frame after start-up (or a launch from it) does
/// nothing but rotate: no rebuild, no reset, no fullscreen switch.
pub proof fn lemma_first_frame_quiet(fs: bool, trail_due: bool)
    ensures
        ({
            let a = initial_controls().after_launch().running_actions(fs, trail_due);
            &&& !a.rebuild_pipelines
            &&& !a.rebuild_meshes
            &&& !a.reset_rotation
            &&& !a.reset_camera
            &&& !a.record_trail
            &&& a.set_fullscreen is None
            &&& a.auto_rotate
        }),
        !initial_controls().after_launch().requests.screenshot_requested,
{
}

} // verus!
