//! The platform-independent core of a pixel-perfect UI render hook: asset
//! reference tracking, nested clip regions, the ordered draw plan of a
//! tesselated widget tree, and the deferred-retry queue of sound events.
//!
//! Everything here works on plain values. The host hands in what it observed
//! (load states, texture sizes, projected corners) and gets back what to do
//! (load requests, rasterization requests, draw calls).

pub mod asset_path;
pub mod assets;
pub mod audio;
pub mod batch;
pub mod clip;
pub mod draw;
pub mod pipeline;
pub mod render_hook;
pub mod text;
pub mod textures;
pub mod vertex;
