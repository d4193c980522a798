//! Decision core of a textured-quad renderer.

pub mod console;
pub mod geo;
pub mod gpu;
pub mod host;
pub mod io;
pub mod renderer;
pub mod texture;
