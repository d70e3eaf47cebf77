use threedtest::backend::{choice_matches_backend, AdapterBackend};
use threedtest::state::BackendChoice;

const ALL: [BackendChoice; 6] = [
    BackendChoice::Auto,
    BackendChoice::Vulkan,
    BackendChoice::Metal,
    BackendChoice::Dx12,
    BackendChoice::OpenGl,
    BackendChoice::WebGpu,
];

#[test]
fn env_keys() {
    assert_eq!(BackendChoice::Auto.env_key(), "auto");
    assert_eq!(BackendChoice::Vulkan.env_key(), "vulkan");
    assert_eq!(BackendChoice::Dx12.env_key(), "dx12");
    assert_eq!(BackendChoice::OpenGl.env_key(), "gl");
    assert_eq!(BackendChoice::Metal.env_key(), "metal");
    assert_eq!(BackendChoice::WebGpu.env_key(), "webgpu");
}

#[test]
fn env_key_round_trip() {
    for c in ALL {
        assert_eq!(BackendChoice::from_env_key(c.env_key()), Some(c));
    }
}

#[test]
fn unknown_env_keys() {
    assert_eq!(BackendChoice::from_env_key(""), None);
    assert_eq!(BackendChoice::from_env_key("Vulkan"), None);
    assert_eq!(BackendChoice::from_env_key("opengl"), None);
    assert_eq!(BackendChoice::from_env_key("auto "), None);
    assert_eq!(BackendChoice::from_env_key("dx1"), None);
}

#[test]
fn auto_matches_every_backend() {
    for b in [
        AdapterBackend::Empty,
        AdapterBackend::Vulkan,
        AdapterBackend::Metal,
        AdapterBackend::Dx12,
        AdapterBackend::Gl,
        AdapterBackend::BrowserWebGpu,
    ] {
        assert!(choice_matches_backend(BackendChoice::Auto, b));
    }
}

#[test]
fn specific_choices_match_only_their_backend() {
    assert!(choice_matches_backend(BackendChoice::Vulkan, AdapterBackend::Vulkan));
    assert!(!choice_matches_backend(BackendChoice::Vulkan, AdapterBackend::Gl));
    assert!(choice_matches_backend(BackendChoice::OpenGl, AdapterBackend::Gl));
    assert!(!choice_matches_backend(BackendChoice::OpenGl, AdapterBackend::Vulkan));
    assert!(choice_matches_backend(BackendChoice::Dx12, AdapterBackend::Dx12));
    assert!(choice_matches_backend(BackendChoice::Metal, AdapterBackend::Metal));
    assert!(choice_matches_backend(BackendChoice::WebGpu, AdapterBackend::BrowserWebGpu));
    assert!(!choice_matches_backend(BackendChoice::WebGpu, AdapterBackend::Empty));
}
