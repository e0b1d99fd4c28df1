//! Platform-neutral core of an off-screen-rendering texture pipeline: the
//! decisions that move browser-rendered frames, delivered as cross-process
//! shared texture handles, into textures owned by a game engine's renderer.
//!
//! The GPU and OS calls themselves (handle duplication, image import, copy
//! submission, fence waits) are made by the embedding layer; this crate
//! decides what to do, tracks which objects are owned, and proves the rules
//! that govern them.
pub mod backend;
pub mod bundle;
pub mod cache;
pub mod config;
pub mod events;
pub mod frame;
pub mod gpu;
pub mod handle;
pub mod importer;
pub mod laws;
pub mod lifecycle;
pub mod settings;
pub mod switches;
pub mod text;
