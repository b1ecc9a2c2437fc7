//! The map: the camera, what the buildings look like, the handle the UI thread
//! holds, and the engine the render thread drives.
pub mod camera;
pub mod style;
pub mod handle;
pub mod engine;
pub mod graphics;
