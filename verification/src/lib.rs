//! The CPU side of a small real-time renderer: keyboard state, event
//! dispatch, mesh and vertex-layout data, and the descriptions from which
//! the GPU objects of a frame are created.
//!
//! Nothing in this crate touches a window or a device. Every function maps
//! plain values to plain values, so that the shell around it only has to
//! carry the results to the windowing and graphics libraries.

use vstd::prelude::*;

pub mod app;
pub mod bits;
pub mod buffer;
pub mod descriptor;
pub mod input;
pub mod model;
pub mod objects;
pub mod renderer;

pub use app::App;
pub use renderer::Renderer;

verus! {

/// The settings the application starts with.
#[derive(Debug)]
pub struct Config {
    pub window: WindowConfig,
    pub application: AppConfig,
}

/// The settings of the window.
#[derive(Debug)]
pub struct WindowConfig {
    pub fullscreen: bool,
    pub vsync: bool,
    pub width: i32,
    pub height: i32,
    /// Red, green, blue and alpha of the background, each a 32-bit real
    /// held by its bit pattern.
    pub bg_color: [u32; 4],
}

/// The settings of the application as a whole.
#[derive(Debug)]
pub struct AppConfig {
    pub name: String,
    pub logging: bool,
}

} // verus!
