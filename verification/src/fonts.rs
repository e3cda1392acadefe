use vstd::prelude::*;

verus! {

/// The size a font is rendered at.
#[derive(Debug, PartialEq, Eq, Structural, Hash, Copy, Clone)]
pub struct FontParams {
    pub size: u8,
}

/// The family name a font or a text run uses: the alias given, or "default".
pub fn family_name_or_default(alias: Option<&str>) -> (r: &str)
    ensures
        r@ == match alias {
            Some(a) => a@,
            None => "default"@,
        },
{
    match alias {
        Some(a) => a,
        None => "default",
    }
}

/// A font of the OpenGL window backend.  It has no glyphs yet: it draws
/// nothing and measures every text as 10 by 10 pixels.
#[derive(Debug, PartialEq, Eq, Structural, Clone, Copy)]
pub struct GlFont {}

impl GlFont {
    pub fn create(_bytes: Vec<u8>) -> (r: GlFont)
        ensures
            r == (GlFont {}),
    {
        GlFont {}
    }

    pub fn get_dimensions(&mut self, _params: FontParams, _text: &str) -> (r: (u16, u16))
        ensures
            r == (10u16, 10u16),
            *final(self) == *old(self),
    {
        (10, 10)
    }
}

/// A font for the gfx backends that measures every text as 10 by 10 pixels.
#[derive(Debug, PartialEq, Eq, Structural, Clone, Copy)]
pub struct GfxTextFont {}

impl GfxTextFont {
    pub fn create(_bytes: &[u8]) -> (r: GfxTextFont)
        ensures
            r == (GfxTextFont {}),
    {
        GfxTextFont {}
    }

    pub fn get_dimensions(&mut self, _font_params: FontParams, _text: &str) -> (r: (u16, u16))
        ensures
            r == (10u16, 10u16),
            *final(self) == *old(self),
    {
        (10, 10)
    }
}

/// A font rendered through glyph outlines, which measures every text as 10
/// by 10 pixels.
#[derive(Debug, PartialEq, Eq, Structural, Clone, Copy)]
pub struct PathfinderFont {}

impl PathfinderFont {
    pub fn get_dimensions(&mut self, _font_params: FontParams, _text: &str) -> (r: (u16, u16))
        ensures
            r == (10u16, 10u16),
            *final(self) == *old(self),
    {
        (10, 10)
    }
}

/// Information about one glyph of a laid out paragraph (not provided by
/// this backend yet).
pub struct GlyphInfo {}

/// Metrics of the lines of a laid out paragraph (not provided by this
/// backend yet).
pub struct LineMetrics {}

/// A fragment program of this backend (not provided yet).
#[derive(Clone, Copy)]
pub struct GlFragmentProgram {}

/// A fragment shader of this backend (not provided yet).
#[derive(Clone, Copy)]
pub struct GlFragmentShader {}

/// A Vulkan swapchain of this backend (not provided yet).
pub struct VulkanSwapchain {}

} // verus!
