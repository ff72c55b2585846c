//! The command-assembling stage of a 2D vector-graphics renderer.
//!
//! Paint requests over tessellated paths are turned into a list of draw
//! commands over one shared vertex buffer, together with the uniform
//! parameters that a GPU backend uploads for each of them. Nothing is drawn
//! here: at the end of a frame the list and the buffer are handed to a
//! backend, which replays them on its device.
//!
//! Numbers are carried as bit patterns (see [`scalar`]); what takes
//! floating-point arithmetic to derive is handed in by the caller, already
//! evaluated.

pub mod scalar;
pub mod error;
pub mod texture;
pub mod geometry;
pub mod path;
pub mod paint;
pub mod params;
pub mod command;
pub mod backend;
pub mod frame;
pub mod renderer;
pub mod framebuffer;
pub mod indices;

pub use crate::backend::{GpuRendererBackend, Request};
pub use crate::command::{Command, CommandView, Drawable, Flavor, Span};
pub use crate::error::ErrorKind;
pub use crate::geometry::{Color, Transform2D, Vertex};
pub use crate::paint::{Paint, Scissor};
pub use crate::params::{Params, ShaderType};
pub use crate::path::{Contour, ContourView, Convexity, ExpandedPath, ExpandedPathView, LineJoin};
pub use crate::renderer::{FillExpansion, GpuRenderer, StrokeExpansion};
pub use crate::scalar::Scalar;
pub use crate::texture::{ImageFlags, ImageId, TextureInfo, TextureType};
