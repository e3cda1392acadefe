use vstd::prelude::*;

use crate::gl_commands::GlCommand;
use crate::gl_context::{target_commands, textured_y8_commands, ColorFormat, GlContextData, GlSurface};
use crate::texture::GlTexture;

verus! {

/// Draws text of one font at one size: the font's glyph bitmap, the single
/// channel texture made from it on the first draw and kept for the later
/// ones, and the vertices of the glyph quads added since the last draw.
/// `B` is the bitmap font, `V` a textured vertex.
pub struct FontSizeRenderer<B, V> {
    bitmap_font: B,
    texture: Option<GlTexture>,
    vertex_data: Vec<V>,
}

impl<B, V: Copy> FontSizeRenderer<B, V> {
    /// The glyph bitmap font.
    pub closed spec fn font(&self) -> B {
        self.bitmap_font
    }

    /// The glyph texture, once a draw has made it.
    pub closed spec fn glyph_texture(&self) -> Option<GlTexture> {
        self.texture
    }

    /// The vertices waiting to be drawn.
    pub closed spec fn vertices(&self) -> Seq<V> {
        self.vertex_data@
    }

    /// A renderer for `font_size` over the bytes of a font file: `make_font`
    /// rasterizes the glyphs into a bitmap font.  It has no texture and no
    /// vertices yet; when `make_font` fails, its error is returned.
    pub fn new<F>(font_data: &[u8], font_size: u8, make_font: F) -> (r: Result<Self, &'static str>)
        where
            F: FnOnce(&[u8], u8) -> Result<B, &'static str>,
        requires
            call_requires(make_font, (font_data, font_size)),
        ensures
            match r {
                Ok(renderer) => {
                    &&& call_ensures(make_font, (font_data, font_size), Ok::<B, &'static str>(renderer.font()))
                    &&& renderer.glyph_texture() is None
                    &&& renderer.vertices() == Seq::<V>::empty()
                },
                Err(e) => call_ensures(make_font, (font_data, font_size), Err::<B, &'static str>(e)),
            },
    {
        match make_font(font_data, font_size) {
            Ok(bitmap_font) => Ok(FontSizeRenderer { bitmap_font, texture: None, vertex_data: Vec::new() }),
            Err(e) => Err(e),
        }
    }

    pub fn get_bitmap_font(&self) -> (r: &B)
        ensures
            *r == self.font(),
    {
        &self.bitmap_font
    }

    /// Whether the glyph texture has been made.
    pub fn has_texture(&self) -> (r: bool)
        ensures
            r == self.glyph_texture() is Some,
    {
        self.texture.is_some()
    }

    /// The vertices waiting to be drawn.
    pub fn get_vertex_data(&self) -> (r: &Vec<V>)
        ensures
            r@ == self.vertices(),
    {
        &self.vertex_data
    }

    /// How many vertices wait to be drawn.
    pub fn vertex_count(&self) -> (r: usize)
        ensures
            r == self.vertices().len(),
    {
        self.vertex_data.len()
    }

    /// Adds the two triangles of a glyph quad from its four corners: the
    /// top-left triangle (top-left, bottom-left, top-right), then the
    /// bottom-right one (top-right, bottom-left, bottom-right).
    pub fn add_quad(&mut self, top_left: V, bottom_left: V, bottom_right: V, top_right: V)
        requires
            old(self).vertices().len() + 6 <= usize::MAX,
        ensures
            final(self).font() == old(self).font(),
            final(self).glyph_texture() == old(self).glyph_texture(),
            final(self).vertices() == old(self).vertices() + seq![
                top_left,
                bottom_left,
                top_right,
                top_right,
                bottom_left,
                bottom_right,
            ],
    {
        let ghost before = self.vertex_data@;
        self.vertex_data.push(top_left);
        self.vertex_data.push(bottom_left);
        self.vertex_data.push(top_right);
        self.vertex_data.push(top_right);
        self.vertex_data.push(bottom_left);
        self.vertex_data.push(bottom_right);
        assert(self.vertex_data@ =~= before + seq![
            top_left,
            bottom_left,
            top_right,
            top_right,
            bottom_left,
            bottom_right,
        ]);
    }

    /// Draws the waiting vertices into `target` with the glyph texture,
    /// without filtering, and forgets them.  The texture is made by
    /// `create_texture` from the image of the bitmap font, in the single
    /// channel `Y8` format, on the first draw only and kept for the later
    /// ones.  When making it fails, the error is returned and
    /// nothing is drawn or changed.
    pub fn draw_at<F>(
        &mut self,
        device: &mut GlContextData,
        target: &GlSurface,
        create_texture: F,
        commands: &mut Vec<GlCommand>,
    ) -> (r: Result<(), &'static str>)
        where
            F: FnOnce(&B, ColorFormat) -> Result<GlTexture, &'static str>,
        requires
            old(self).glyph_texture() is None ==> call_requires(create_texture, (&old(self).font(), ColorFormat::Y8)),
        ensures
            *final(device) == *old(device),
            final(self).font() == old(self).font(),
            match r {
                Ok(()) => {
                    &&& final(self).glyph_texture() is Some
                    &&& old(self).glyph_texture() is Some ==> final(self).glyph_texture() == old(self).glyph_texture()
                    &&& old(self).glyph_texture() is None ==> call_ensures(
                        create_texture,
                        (&old(self).font(), ColorFormat::Y8),
                        Ok::<GlTexture, &'static str>(final(self).glyph_texture()->Some_0),
                    )
                    &&& final(self).vertices() == Seq::<V>::empty()
                    &&& final(commands)@ == old(commands)@ + target_commands(*target) + textured_y8_commands(
                        old(device).textured_y8_pipeline,
                        final(self).glyph_texture()->Some_0,
                        false,
                        old(self).vertices().len() as usize,
                    )
                },
                Err(e) => {
                    &&& old(self).glyph_texture() is None
                    &&& call_ensures(create_texture, (&old(self).font(), ColorFormat::Y8), Err::<GlTexture, &'static str>(e))
                    &&& final(self).glyph_texture() == old(self).glyph_texture()
                    &&& final(self).vertices() == old(self).vertices()
                    &&& final(commands)@ == old(commands)@
                },
            },
    {
        if self.texture.is_none() {
            match create_texture(&self.bitmap_font, ColorFormat::Y8) {
                Ok(texture) => {
                    self.texture = Some(texture);
                },
                Err(e) => {
                    return Err(e);
                },
            }
        }
        let count = self.vertex_data.len();
        match &self.texture {
            Some(texture) => {
                device.triangles_textured_y8(target, texture, false, count, commands);
            },
            None => {},
        }
        self.vertex_data.clear();
        Ok(())
    }
}

} // verus!
