//! The decisions behind a small WebGL party invitation page: which visitors are
//! on a mobile device, what the page says, which textures and buffers the
//! renderer sets up, and what every animation frame draws.
//!
//! Everything that talks to the browser (the DOM, WebGL, the clock) lives in
//! the application around this library; the library hands it plain values.

pub mod agent;
pub mod matcher;
pub mod page;
pub mod scene;
