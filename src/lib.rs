//! Layer model and software compositor of a layered image editor.
//!
//! A [`Document`] owns an ordered stack of [`Layer`]s (raster, vector or 3D
//! scene). A [`Renderer`] composites them, first to last, into an RGBA
//! framebuffer with straight-alpha "over" blending.

pub mod color;
pub mod command;
pub mod document;
pub mod grid;
pub mod layer;
pub mod plugin;
pub mod raster;
pub mod renderer;
pub mod scene3d;
pub mod ui;
pub mod vector;

pub use color::blend_over;
pub use command::Command;
pub use document::Document;
pub use layer::{Layer, LayerProperties};
pub use plugin::AiPlugin;
pub use raster::RasterLayer;
pub use renderer::Renderer;
pub use scene3d::{Material, Mesh, Scene3DLayer, Vertex};
pub use ui::AppUI;
pub use vector::{VectorLayer, VectorShape};
