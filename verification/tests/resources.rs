use drawing_gl::fonts::{family_name_or_default, FontParams, GfxTextFont, GlFont, PathfinderFont};
use drawing_gl::gl_commands::{DrawMode, FragUniformsSource, GlCommand};
use drawing_gl::gl_context::{texture_type_code, ColorFormat, GlSurface};
use drawing_gl::paragraph::ParagraphBuilder;
use drawing_gl::pipelines::{shader_type_code, ShaderType, TexturedPipeline, TexturedY8Pipeline, UniversalPipeline};
use drawing_gl::primitive::{FillType, PathBuilder, PathElement};
use drawing_gl::texture::{
    external_texture_format, texture_storage, GlInternalFormat, GlPixelFormat, GlPixelType, GlTexture,
};

#[test]
fn textures_created_by_the_context_are_owned() {
    let t = GlTexture::created(3, 64, 32, ColorFormat::RGBA, false);
    assert_eq!(t.get_size(), (64, 32));
    assert_eq!(t.get_native_handle(), 3);
    assert!(t.data.is_owned);
    assert!(t.data.deletes_texture_on_drop());
    assert_eq!(t.data.gl_format, GlPixelFormat::Rgba);
    let null = GlTexture::created(0, 1, 1, ColorFormat::Y8, false);
    assert!(!null.data.deletes_texture_on_drop());
    assert_eq!(null.data.gl_format, GlPixelFormat::Red);
}

#[test]
fn adopted_textures_are_not_owned() {
    let t = GlTexture::from_external(12, 8, 8, ColorFormat::Y8);
    assert!(!t.data.is_owned);
    assert!(!t.data.flipped_y);
    assert!(!t.data.deletes_texture_on_drop());
    assert_eq!((t.data.gl_type, t.data.gl_format), (GlPixelType::UnsignedByte, GlPixelFormat::Red));
}

#[test]
fn color_formats_map_to_gl_formats() {
    assert_eq!(
        texture_storage(ColorFormat::RGBA),
        (GlInternalFormat::Srgb8Alpha8, GlPixelType::UnsignedByte, GlPixelFormat::Rgba)
    );
    assert_eq!(texture_storage(ColorFormat::Y8), (GlInternalFormat::R8, GlPixelType::UnsignedByte, GlPixelFormat::Red));
    assert_eq!(external_texture_format(ColorFormat::RGBA), (GlPixelType::UnsignedByte, GlPixelFormat::Rgba));
    assert_eq!(texture_type_code(GlPixelFormat::Bgra), 0);
    assert_eq!(texture_type_code(GlPixelFormat::Red), 1);
    assert_eq!(texture_type_code(GlPixelFormat::Rgba), 0);
}

#[test]
fn shader_types_are_numbered_in_order() {
    assert_eq!(shader_type_code(ShaderType::FillGradient), 0);
    assert_eq!(shader_type_code(ShaderType::FillImage), 1);
    assert_eq!(shader_type_code(ShaderType::Simple), 2);
    assert_eq!(shader_type_code(ShaderType::Image), 3);
}

#[test]
fn surfaces_own_only_their_render_targets() {
    let mut wrapped = GlSurface::wrap_gl_framebuffer(0, 100, 50, ColorFormat::RGBA);
    assert!(!wrapped.deletes_framebuffer_on_drop());
    assert_eq!(wrapped.get_size(), (100, 50));
    wrapped.update_size(200, 150);
    assert_eq!(wrapped.get_size(), (200, 150));
    assert_eq!(wrapped.framebuffer_id, 0);
    let target = GlSurface::render_target(7, 16, 16);
    assert!(target.deletes_framebuffer_on_drop());
    assert_eq!(target.color_format, ColorFormat::RGBA);
}

#[test]
fn universal_pipeline_records_its_calls() {
    let mut p = UniversalPipeline::from_program(11, 1, 2, 3);
    p.set_buffers((20, 21));
    assert_eq!((p.vbo, p.vao, p.program), (20, 21, 11));
    let mut cmds = Vec::new();
    p.apply(&mut cmds);
    p.set_transform(&mut cmds);
    p.set_flipped_y(true, &mut cmds);
    p.set_flipped_y(false, &mut cmds);
    p.draw(4, DrawMode::TriangleFan, &mut cmds);
    assert_eq!(
        cmds,
        vec![
            GlCommand::UseProgram { program_id: 11 },
            GlCommand::SetTransform { location: 1 },
            GlCommand::SetFlippedY { location: 2, value: 1 },
            GlCommand::SetFlippedY { location: 2, value: 0 },
            GlCommand::DrawArrays { vbo: 20, vao: 21, mode: DrawMode::TriangleFan, count: 4 },
        ]
    );
}

#[test]
fn y8_pipeline_applies_its_program() {
    let mut p = TexturedY8Pipeline::from_program(5, 6, 7);
    let mut cmds = Vec::new();
    p.apply(&mut cmds);
    assert_eq!(cmds, vec![GlCommand::UseProgram { program_id: 5 }]);
}

#[test]
fn path_builder_keeps_elements_in_order() {
    let mut b: PathBuilder<(i32, i32)> = PathBuilder::default();
    b.move_to((0, 0));
    b.line_to((10, 0));
    b.cubic_curve_to((10, 5), (5, 10), (0, 10));
    b.close();
    let copy = b.build_copy();
    assert_eq!(copy.fill_type, FillType::NonZero);
    assert_eq!(copy.path.len(), 4);
    b.set_fill_type(FillType::Odd);
    let path = b.build();
    assert_eq!(path.fill_type, FillType::Odd);
    assert_eq!(path.path, copy.path);
    assert_eq!(path.path[2], PathElement::BezierTo((10, 5), (5, 10), (0, 10)));
    assert_eq!(path.path[3], PathElement::ClosePath);
}

#[test]
fn paragraph_runs_use_the_innermost_style() {
    let mut b: ParagraphBuilder<&'static str, u8, u32> = ParagraphBuilder::new("fonts").unwrap();
    assert!(b.current_style().is_none());
    b.push_style(12);
    b.push_style(24);
    assert_eq!(b.current_style(), Some(&24));
    b.add_text(1);
    b.pop_style();
    assert_eq!(b.current_style(), Some(&12));
    b.add_text(2);
    b.pop_style();
    b.pop_style();
    assert!(b.current_style().is_none());
    assert_eq!(*b.fonts(), "fonts");
    let p = b.build().unwrap();
    assert_eq!(p.primitives, vec![1, 2]);
}

#[test]
fn family_names_default_to_default() {
    assert_eq!(family_name_or_default(None), "default");
    assert_eq!(family_name_or_default(Some("Sans")), "Sans");
}

#[test]
fn placeholder_fonts_measure_ten_by_ten() {
    let params = FontParams { size: 12 };
    assert_eq!(GlFont::create(vec![1, 2]).get_dimensions(params, "abc"), (10, 10));
    assert_eq!(GfxTextFont::create(&[0u8]).get_dimensions(params, ""), (10, 10));
    let mut p = PathfinderFont {};
    assert_eq!(p.get_dimensions(params, "x"), (10, 10));
}

#[test]
fn textured_pipelines_record_their_calls() {
    let mut p = TexturedPipeline::from_program(1, 2, 3);
    p.set_buffers((4, 5));
    let mut cmds = Vec::new();
    p.apply(&mut cmds);
    p.set_transform(&mut cmds);
    p.set_flipped_y(true, &mut cmds);
    p.draw(6, &mut cmds);
    assert_eq!(
        cmds,
        vec![
            GlCommand::UseProgram { program_id: 1 },
            GlCommand::SetTransform { location: 2 },
            GlCommand::SetFlippedY { location: 3, value: 1 },
            GlCommand::DrawArrays { vbo: 4, vao: 5, mode: DrawMode::Triangles, count: 6 },
        ]
    );
    let mut y8 = TexturedY8Pipeline::from_program(7, 8, 9);
    y8.set_buffers((10, 11));
    let mut cmds = Vec::new();
    y8.draw(3, &mut cmds);
    assert_eq!(cmds, vec![GlCommand::DrawArrays { vbo: 10, vao: 11, mode: DrawMode::Triangles, count: 3 }]);
}

#[test]
fn universal_pipeline_uploads_uniforms_to_its_buffer() {
    let mut p = UniversalPipeline::from_program(1, 2, 3, 44);
    let mut cmds = Vec::new();
    p.apply_frag_uniforms(FragUniformsSource::StencilOnly, &mut cmds);
    assert_eq!(cmds, vec![GlCommand::ApplyFragUniforms { buffer: 44, source: FragUniformsSource::StencilOnly }]);
}
