use drawing_gl::font_size_renderer::FontSizeRenderer;
use drawing_gl::gl_commands::{DrawMode, GlCapability, GlCommand, TextureFilter};
use drawing_gl::gl_context::{ColorFormat, GlContextData, GlSurface};
use drawing_gl::pipelines::{ColoredPipeline, TexturedPipeline, TexturedY8Pipeline, UniversalPipeline};
use drawing_gl::texture::GlTexture;
use drawing_gl::texture_font::TextureFont;

fn context() -> GlContextData {
    GlContextData::from_pipelines(
        ColoredPipeline::from_program(1, 10),
        (100, 101),
        TexturedPipeline::from_program(2, 20, 21),
        (200, 201),
        TexturedY8Pipeline::from_program(3, 30, 31),
        (300, 301),
        UniversalPipeline::from_program(4, 40, 41, 42),
        (400, 401),
    )
}

fn surface() -> GlSurface {
    GlSurface::wrap_gl_framebuffer(5, 640, 480, ColorFormat::RGBA)
}

type Renderer = FontSizeRenderer<(usize, u8), (i32, i32)>;

fn renderer() -> Renderer {
    FontSizeRenderer::new(&[1, 2, 3, 4], 25, |bytes: &[u8], size: u8| Ok((bytes.len(), size))).unwrap()
}

fn glyph_draw(texture_id: u32, count: usize) -> Vec<GlCommand> {
    vec![
        GlCommand::BindFramebuffer { framebuffer_id: 5 },
        GlCommand::Viewport { width: 640, height: 480 },
        GlCommand::Enable(GlCapability::Texture2D),
        GlCommand::BindTexture { texture_id },
        GlCommand::SetTextureFilter(TextureFilter::Nearest),
        GlCommand::UseProgram { program_id: 3 },
        GlCommand::SetTransform { location: 30 },
        GlCommand::SetFlippedY { location: 31, value: 0 },
        GlCommand::DrawArrays { vbo: 300, vao: 301, mode: DrawMode::Triangles, count },
    ]
}

#[test]
fn a_new_renderer_has_no_texture_and_no_vertices() {
    let r = renderer();
    assert_eq!(*r.get_bitmap_font(), (4, 25));
    assert!(!r.has_texture());
    assert_eq!(r.vertex_count(), 0);
}

#[test]
fn a_font_that_cannot_be_rasterized_gives_no_renderer() {
    let r: Result<Renderer, &'static str> =
        FontSizeRenderer::new(&[], 12, |_bytes: &[u8], _size: u8| Err("no glyphs"));
    assert_eq!(r.err(), Some("no glyphs"));
}

#[test]
fn a_quad_adds_two_triangles() {
    let mut r = renderer();
    r.add_quad((0, 0), (0, 1), (1, 1), (1, 0));
    assert_eq!(r.vertex_count(), 6);
    r.add_quad((2, 2), (2, 3), (3, 3), (3, 2));
    assert_eq!(r.vertex_count(), 12);
}

#[test]
fn the_glyph_texture_is_made_on_the_first_draw_only() {
    let mut r = renderer();
    let mut device = context();
    let mut made = 0;
    r.add_quad((0, 0), (0, 1), (1, 1), (1, 0));
    let mut cmds = Vec::new();
    let result = r.draw_at(
        &mut device,
        &surface(),
        |font: &(usize, u8), format: ColorFormat| {
            made += 1;
            assert_eq!(format, ColorFormat::Y8);
            Ok(GlTexture::created(9, font.0 as u16, font.1 as u16, format, false))
        },
        &mut cmds,
    );
    assert_eq!(result, Ok(()));
    assert_eq!(cmds, glyph_draw(9, 6));
    assert!(r.has_texture());
    assert_eq!(r.vertex_count(), 0);

    let mut cmds = Vec::new();
    let result = r.draw_at(
        &mut device,
        &surface(),
        |_font: &(usize, u8), _format: ColorFormat| {
            made += 1;
            Ok(GlTexture::created(10, 1, 1, ColorFormat::Y8, false))
        },
        &mut cmds,
    );
    assert_eq!(result, Ok(()));
    assert_eq!(cmds, glyph_draw(9, 0));
    assert_eq!(made, 1);
}

#[test]
fn a_failed_texture_draws_nothing() {
    let mut r = renderer();
    let mut device = context();
    r.add_quad((0, 0), (0, 1), (1, 1), (1, 0));
    let mut cmds = Vec::new();
    let result = r.draw_at(&mut device, &surface(), |_font: &(usize, u8), _format: ColorFormat| Err("out of memory"), &mut cmds);
    assert_eq!(result, Err("out of memory"));
    assert!(cmds.is_empty());
    assert!(!r.has_texture());
    assert_eq!(r.vertex_count(), 6);
}

#[test]
fn a_texture_font_keeps_one_renderer_per_size() {
    let mut font: TextureFont<Renderer> = TextureFont::create(vec![7, 7]).unwrap();
    let r = font
        .get_or_create_font_renderer(16, |bytes: &Vec<u8>, size: u8| {
            FontSizeRenderer::new(bytes, size, |b: &[u8], s: u8| Ok((b.len(), s)))
        })
        .unwrap();
    assert_eq!(*r.get_bitmap_font(), (2, 16));
    r.add_quad((0, 0), (0, 1), (1, 1), (1, 0));
    let r = font
        .get_or_create_font_renderer(16, |_bytes: &Vec<u8>, _size: u8| Err("made twice"))
        .unwrap();
    assert_eq!(r.vertex_count(), 6);
}
