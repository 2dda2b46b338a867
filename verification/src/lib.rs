//! Safe, verified building blocks for driving the PICA200 GPU of the 3DS through
//! `citro3d`: attribute and buffer layouts, uniforms, texture combiners, textures,
//! lights, render targets, shaders and the GX transfer flags.

pub mod attrib;
pub mod bindings;
pub mod buffer;
pub mod buffers;
pub mod citro2d;
pub mod enums;
pub mod error;
pub mod fog;
pub mod gx;
pub mod instance;
pub mod light;
pub mod math;
pub mod private;
pub mod render;
pub mod shader;
pub mod shader_include;
pub mod texenv;
pub mod texture;
pub mod uniform;
pub mod util;

pub use error::{Error, Result};
pub use instance::Instance;
