//! Discrete core of the 3DTest renderer: backend selection, control state,
//! mesh topology and render planning, each with a verified contract.
pub mod state;
pub mod backend;
pub mod frame;
pub mod stats;
pub mod scene;
pub mod mesh;
pub mod render;
