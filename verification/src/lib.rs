//! The OpenGL backend of a 2D drawing library: the display list builder,
//! the render passes planned as OpenGL commands, and the textures,
//! surfaces, pipelines and fonts they use.

pub mod display_list;
pub mod font_size_renderer;
pub mod fonts;
pub mod gl_commands;
pub mod gl_context;
pub mod paragraph;
pub mod pass_laws;
pub mod pipelines;
pub mod primitive;
pub mod stencil;
pub mod texture;
pub mod texture_font;
pub mod units;
