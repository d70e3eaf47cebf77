use threedtest::backend::AdapterBackend;
use threedtest::frame::BackendSwitch;
use threedtest::state::{BackendChoice, Controls, Key};

#[test]
fn no_launch_means_stay() {
    let mut c = Controls::new();
    assert_eq!(c.take_backend_switch(true, AdapterBackend::Vulkan), BackendSwitch::Stay);
    assert_eq!(c.launch.backend_choice, BackendChoice::Auto);
}

#[test]
fn launch_auto_upgrades() {
    let mut c = Controls::new();
    c.launch();
    assert_eq!(c.take_backend_switch(true, AdapterBackend::Gl), BackendSwitch::Upgrade);
    assert_eq!(c.launch.pending_backend, None);
}

#[test]
fn launch_same_backend_upgrades() {
    let mut c = Controls::new();
    c.launch.backend_choice = BackendChoice::Vulkan;
    c.launch();
    assert_eq!(c.take_backend_switch(true, AdapterBackend::Vulkan), BackendSwitch::Upgrade);
    assert_eq!(c.launch.backend_choice, BackendChoice::Vulkan);
}

#[test]
fn launch_other_backend_restarts() {
    let mut c = Controls::new();
    c.launch.backend_choice = BackendChoice::OpenGl;
    c.launch();
    assert_eq!(
        c.take_backend_switch(true, AdapterBackend::Vulkan),
        BackendSwitch::Restart(BackendChoice::OpenGl)
    );
    assert_eq!(c.launch.pending_backend, None);
}

#[test]
fn launch_request_ignored_when_running() {
    let mut c = Controls::new();
    c.launch.pending_backend = Some(BackendChoice::Metal);
    assert_eq!(c.take_backend_switch(false, AdapterBackend::Vulkan), BackendSwitch::Stay);
    assert_eq!(c.launch.pending_backend, None);
    assert_eq!(c.launch.backend_choice, BackendChoice::Auto);
}

#[test]
fn running_frame_consumes_requests() {
    let mut c = Controls::new();
    c.requests.pipeline_dirty = true;
    c.requests.mesh_dirty = true;
    c.handle_key(Key::R);
    c.handle_key(Key::F11);
    let a = c.plan_running_frame(false, true);
    assert!(a.rebuild_pipelines && a.rebuild_meshes && a.reset_camera);
    assert!(!a.reset_rotation);
    assert!(a.auto_rotate);
    assert!(!a.record_trail);
    assert_eq!(a.set_fullscreen, Some(true));
    assert!(c.requests.fullscreen_active);
    let b = c.plan_running_frame(true, true);
    assert!(!b.rebuild_pipelines && !b.rebuild_meshes && !b.reset_camera);
    assert_eq!(b.set_fullscreen, None);
    assert!(c.requests.fullscreen_active);
}

#[test]
fn fullscreen_key_leaves_fullscreen() {
    let mut c = Controls::new();
    c.requests.fullscreen_active = true;
    c.handle_key(Key::F11);
    let a = c.plan_running_frame(true, false);
    assert_eq!(a.set_fullscreen, Some(false));
    assert!(!c.requests.fullscreen_active);
}

#[test]
fn paused_or_disabled_rotation() {
    let mut c = Controls::new();
    c.handle_key(Key::P);
    assert!(!c.plan_running_frame(false, false).auto_rotate);
    c.handle_key(Key::P);
    assert!(c.plan_running_frame(false, false).auto_rotate);
    c.anim.auto_rotate = false;
    assert!(!c.plan_running_frame(false, false).auto_rotate);
}

#[test]
fn trail_recorded_only_when_enabled_and_due() {
    let mut c = Controls::new();
    c.anim.rotation_trail = true;
    assert!(c.plan_running_frame(false, true).record_trail);
    assert!(!c.plan_running_frame(false, false).record_trail);
}

#[test]
fn left_button_drag() {
    let mut c = Controls::new();
    c.on_left_button(true, true);
    assert!(!c.mouse_drag);
    c.on_left_button(true, false);
    assert!(c.mouse_drag);
    assert!(c.drag_rotates(false));
    assert!(!c.drag_rotates(true));
    c.on_left_button(false, true);
    assert!(!c.mouse_drag);
}

#[test]
fn screenshot_request_taken_once() {
    let mut c = Controls::new();
    c.handle_key(Key::F5);
    assert!(c.take_screenshot_request());
    assert!(!c.take_screenshot_request());
}

#[test]
fn rotation_reset_request_from_button() {
    let mut c = Controls::new();
    c.requests.reset_rotation_requested = true;
    let a = c.plan_running_frame(false, false);
    assert!(a.reset_rotation && !a.reset_camera);
    assert!(!c.plan_running_frame(false, false).reset_rotation);
}

#[test]
fn right_button_pans() {
    let mut c = Controls::new();
    c.on_right_button(true, true);
    assert!(!c.pan_drag);
    c.on_right_button(true, false);
    assert!(c.pan_drag && !c.mouse_drag);
    assert!(c.drag_pans(false));
    assert!(!c.drag_pans(true));
    assert!(!c.drag_rotates(false));
    c.on_right_button(false, false);
    assert!(!c.pan_drag);
}
