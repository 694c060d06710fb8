//! Game-state and rendering-pipeline logic of a small arcade shooter: input
//! intents, frame timing, camera resizing, vertex layouts and the per-frame
//! command plan that a graphics backend carries out.

pub mod logic;
pub mod frame;
pub mod camera;
pub mod uniform;
pub mod mesh;
pub mod renderer;
pub mod layout;
pub mod session;
