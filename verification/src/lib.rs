//! Device-independent core of a Direct3D 10 renderer for `egui`.

pub mod bootstrap;
pub mod command;
pub mod image;
pub mod pipeline;
pub mod renderer;
pub mod state_block;
pub mod texture;
