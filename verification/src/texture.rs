use vstd::prelude::*;

use std::sync::Arc;

use crate::gl_context::ColorFormat;

verus! {

/// The internal format a texture is stored in (`GL_SRGB8_ALPHA8`, `GL_R8`).
#[derive(Clone, Copy, Debug, PartialEq, Eq, Structural)]
pub enum GlInternalFormat {
    Srgb8Alpha8,
    R8,
}

/// The type of the pixel data handed to OpenGL (`GL_UNSIGNED_BYTE`).
#[derive(Clone, Copy, Debug, PartialEq, Eq, Structural)]
pub enum GlPixelType {
    UnsignedByte,
}

/// The layout of the pixel data handed to OpenGL (`GL_RGBA`, `GL_BGRA`, `GL_RED`).
#[derive(Clone, Copy, Debug, PartialEq, Eq, Structural)]
pub enum GlPixelFormat {
    Rgba,
    Bgra,
    Red,
}

/// How a texture the context creates stores a color format: RGBA textures
/// are sRGB with alpha, Y8 textures a single red channel; both take bytes.
pub open spec fn storage_of(format: ColorFormat) -> (GlInternalFormat, GlPixelType, GlPixelFormat) {
    match format {
        ColorFormat::RGBA => (GlInternalFormat::Srgb8Alpha8, GlPixelType::UnsignedByte, GlPixelFormat::Rgba),
        ColorFormat::Y8 => (GlInternalFormat::R8, GlPixelType::UnsignedByte, GlPixelFormat::Red),
    }
}

/// The pixel type and layout of a texture created elsewhere, by its color format.
pub open spec fn external_format_of(format: ColorFormat) -> (GlPixelType, GlPixelFormat) {
    match format {
        ColorFormat::RGBA => (GlPixelType::UnsignedByte, GlPixelFormat::Rgba),
        ColorFormat::Y8 => (GlPixelType::UnsignedByte, GlPixelFormat::Red),
    }
}

/// The internal format, pixel type and layout of a texture the context creates.
pub fn texture_storage(format: ColorFormat) -> (r: (GlInternalFormat, GlPixelType, GlPixelFormat))
    ensures
        r == storage_of(format),
{
    match format {
        ColorFormat::RGBA => (GlInternalFormat::Srgb8Alpha8, GlPixelType::UnsignedByte, GlPixelFormat::Rgba),
        ColorFormat::Y8 => (GlInternalFormat::R8, GlPixelType::UnsignedByte, GlPixelFormat::Red),
    }
}

/// The pixel type and layout of a texture created elsewhere.
pub fn external_texture_format(format: ColorFormat) -> (r: (GlPixelType, GlPixelFormat))
    ensures
        r == external_format_of(format),
{
    match format {
        ColorFormat::RGBA => (GlPixelType::UnsignedByte, GlPixelFormat::Rgba),
        ColorFormat::Y8 => (GlPixelType::UnsignedByte, GlPixelFormat::Red),
    }
}

/// What is known of an OpenGL texture.
#[derive(Debug)]
pub struct GlTextureData {
    pub id: u32,
    pub is_owned: bool,
    pub width: u16,
    pub height: u16,
    pub gl_format: GlPixelFormat,
    pub gl_type: GlPixelType,
    pub flipped_y: bool,
}

impl GlTextureData {
    /// Whether dropping the data deletes the OpenGL texture: only a texture
    /// this library created, and never the null texture 0.
    pub fn deletes_texture_on_drop(&self) -> (r: bool)
        ensures
            r == (self.is_owned && self.id > 0),
    {
        self.is_owned && self.id > 0
    }
}

/// A shared handle to a texture.
#[derive(Clone)]
pub struct GlTexture {
    pub data: Arc<GlTextureData>,
}

impl GlTexture {
    /// Adopts a texture created elsewhere: it is not owned, so it is not
    /// deleted when the last handle goes, and it is not stored upside down.
    pub fn from_external(id: u32, width: u16, height: u16, format: ColorFormat) -> (r: GlTexture)
        ensures
            *r.data == (GlTextureData {
                id,
                is_owned: false,
                width,
                height,
                gl_format: external_format_of(format).1,
                gl_type: external_format_of(format).0,
                flipped_y: false,
            }),
    {
        let (gl_type, gl_format) = external_texture_format(format);
        GlTexture {
            data: Arc::new(
                GlTextureData { id, is_owned: false, width, height, gl_format, gl_type, flipped_y: false },
            ),
        }
    }

    /// The handle of a texture the context has just generated: it is owned,
    /// and render target textures are stored upside down.
    pub fn created(id: u32, width: u16, height: u16, format: ColorFormat, flipped_y: bool) -> (r: GlTexture)
        ensures
            *r.data == (GlTextureData {
                id,
                is_owned: true,
                width,
                height,
                gl_format: storage_of(format).2,
                gl_type: storage_of(format).1,
                flipped_y,
            }),
    {
        let (_internal_format, gl_type, gl_format) = texture_storage(format);
        GlTexture {
            data: Arc::new(GlTextureData { id, is_owned: true, width, height, gl_format, gl_type, flipped_y }),
        }
    }

    pub fn get_size(&self) -> (r: (u16, u16))
        ensures
            r == (self.data.width, self.data.height),
    {
        (self.data.width, self.data.height)
    }

    pub fn get_native_handle(&self) -> (r: usize)
        ensures
            r == self.data.id,
    {
        self.data.id as usize
    }
}

} // verus!
