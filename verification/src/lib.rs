//! Browser GPU backend core: a sprite/texture atlas manager and a batched
//! 2D rendering pipeline.
//!
//! The crate packs rasterized glyphs and images into shared atlas textures,
//! tracks per-texture live-reference counts, buffers pixel uploads, and turns
//! an ordered list of primitive batches into an ordered list of GPU commands,
//! preserving paint order. The GPU itself (device, surface, pipelines) is
//! driven by a thin unverified shell around this crate; everything the shell
//! decides is computed here.

pub mod geometry;

pub mod packer;

pub mod atlas;

pub mod scene;

pub mod pack;

pub mod render;

pub mod http;

pub mod assets;
