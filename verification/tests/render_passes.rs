use drawing_gl::gl_commands::{
    DrawMode, Face, FragUniformsSource, GlCapability, GlCommand, PaintWidth, PathPart, StencilAction,
    StencilFunction, StrokeThreshold, TextureFilter,
};
use drawing_gl::gl_context::{paint_shader_codes, ColorFormat, GlContextData, GlSurface, PathInfo};
use drawing_gl::pipelines::{ColoredPipeline, TexturedPipeline, TexturedY8Pipeline, UniversalPipeline};
use drawing_gl::texture::GlTexture;

fn context() -> GlContextData {
    GlContextData::from_pipelines(
        ColoredPipeline::from_program(1, 10),
        (100, 101),
        TexturedPipeline::from_program(2, 20, 21),
        (200, 201),
        TexturedY8Pipeline::from_program(3, 30, 31),
        (300, 301),
        UniversalPipeline::from_program(4, 40, 41, 42),
        (400, 401),
    )
}

fn surface() -> GlSurface {
    GlSurface::wrap_gl_framebuffer(5, 640, 480, ColorFormat::RGBA)
}

#[derive(Clone, Copy, Debug, PartialEq)]
struct State {
    stencil: bool,
    color: bool,
    cull: bool,
    texture: bool,
}

/// Runs the commands over the switched state, checking each draw.
fn simulate(cmds: &[GlCommand], start: State, mut on_draw: impl FnMut(&GlCommand, State)) -> State {
    let mut s = start;
    for c in cmds {
        match c {
            GlCommand::Enable(GlCapability::StencilTest) => s.stencil = true,
            GlCommand::Disable(GlCapability::StencilTest) => s.stencil = false,
            GlCommand::Enable(GlCapability::CullFace) => s.cull = true,
            GlCommand::Disable(GlCapability::CullFace) => s.cull = false,
            GlCommand::Enable(GlCapability::Texture2D) => s.texture = true,
            GlCommand::Disable(GlCapability::Texture2D) => s.texture = false,
            GlCommand::ColorMask(on) => s.color = *on,
            GlCommand::DrawPath { .. } | GlCommand::DrawArrays { .. } | GlCommand::DrawFillBounds { .. } => {
                on_draw(c, s)
            }
            _ => {}
        }
    }
    s
}

fn count_draws(cmds: &[GlCommand], part: PathPart) -> usize {
    cmds.iter()
        .filter(|c| matches!(c, GlCommand::DrawPath { part: p, .. } if *p == part))
        .count()
}

#[test]
fn pipelines_take_the_context_buffers() {
    let ctx = context();
    assert_eq!((ctx.universal_pipeline.vbo, ctx.universal_pipeline.vao), (400, 401));
    assert_eq!((ctx.colored_pipeline.vbo, ctx.colored_pipeline.vao), (100, 101));
    assert_eq!(ctx.universal_pipeline.program, 4);
    assert_eq!(ctx.textured_y8_pipeline_buffers, (300, 301));
}

#[test]
fn render_target_binds_framebuffer_and_viewport() {
    let mut cmds = Vec::new();
    context().set_render_target(&surface(), &mut cmds);
    assert_eq!(
        cmds,
        vec![
            GlCommand::BindFramebuffer { framebuffer_id: 5 },
            GlCommand::Viewport { width: 640, height: 480 },
        ]
    );
}

#[test]
fn stroke_with_antialiasing_draws_each_stroke_three_times() {
    let mut ctx = context();
    let paths = vec![
        PathInfo { convex: true, fill_vertex_count: 4, stroke_vertex_count: 10 },
        PathInfo { convex: false, fill_vertex_count: 4, stroke_vertex_count: 0 },
        PathInfo { convex: false, fill_vertex_count: 0, stroke_vertex_count: 6 },
    ];
    let mut cmds = Vec::new();
    ctx.stroke(&surface(), &paths, true, &mut cmds);
    assert_eq!(count_draws(&cmds, PathPart::Stroke), 6);
    assert_eq!(count_draws(&cmds, PathPart::Fill), 0);
    assert!(!cmds.iter().any(|c| matches!(c, GlCommand::DrawPath { path: 1, .. })));
    assert_eq!(cmds[2], GlCommand::UseProgram { program_id: 4 });
    assert_eq!(cmds[3], GlCommand::SetTransform { location: 40 });
    assert_eq!(
        cmds[8],
        GlCommand::ApplyFragUniforms {
            buffer: 42,
            source: FragUniformsSource::Paint { width: PaintWidth::StrokeThickness, threshold: StrokeThreshold::Antialiased },
        }
    );
    assert_eq!(*cmds.last().unwrap(), GlCommand::Disable(GlCapability::StencilTest));
    let start = State { stencil: false, color: true, cull: true, texture: false };
    let end = simulate(&cmds, start, |_, s| assert!(s.stencil));
    assert_eq!(end, start);
}

#[test]
fn stroke_without_antialiasing_draws_each_stroke_twice() {
    let mut ctx = context();
    let paths = vec![PathInfo { convex: true, fill_vertex_count: 4, stroke_vertex_count: 10 }];
    let mut cmds = Vec::new();
    ctx.stroke(&surface(), &paths, false, &mut cmds);
    assert_eq!(count_draws(&cmds, PathPart::Stroke), 2);
    assert_eq!(
        cmds[8],
        GlCommand::ApplyFragUniforms {
            buffer: 42,
            source: FragUniformsSource::Paint { width: PaintWidth::StrokeThickness, threshold: StrokeThreshold::Disabled },
        }
    );
    let end = simulate(&cmds, State { stencil: true, color: false, cull: false, texture: true }, |_, s| assert!(s.stencil));
    assert!(!end.stencil);
    assert!(end.color);
    assert!(end.texture);
}

#[test]
fn convex_fill_draws_directly() {
    let mut ctx = context();
    let paths = vec![PathInfo { convex: true, fill_vertex_count: 5, stroke_vertex_count: 12 }];
    let mut cmds = Vec::new();
    ctx.fill(&surface(), None, false, &paths, true, &mut cmds);
    assert_eq!(
        cmds,
        vec![
            GlCommand::BindFramebuffer { framebuffer_id: 5 },
            GlCommand::Viewport { width: 640, height: 480 },
            GlCommand::UseProgram { program_id: 4 },
            GlCommand::SetTransform { location: 40 },
            GlCommand::ApplyFragUniforms {
                buffer: 42,
                source: FragUniformsSource::Paint { width: PaintWidth::FringeWidth, threshold: StrokeThreshold::Disabled },
            },
            GlCommand::DrawPath { vbo: 400, vao: 401, path: 0, part: PathPart::Fill, mode: DrawMode::TriangleFan },
            GlCommand::DrawPath { vbo: 400, vao: 401, path: 0, part: PathPart::Stroke, mode: DrawMode::TriangleStrip },
        ]
    );
}

#[test]
fn convex_fill_without_antialiasing_skips_the_outline() {
    let mut ctx = context();
    let paths = vec![PathInfo { convex: true, fill_vertex_count: 5, stroke_vertex_count: 12 }];
    let mut cmds = Vec::new();
    ctx.fill(&surface(), Some(77), true, &paths, false, &mut cmds);
    assert_eq!(cmds[2], GlCommand::Enable(GlCapability::Texture2D));
    assert_eq!(cmds[3], GlCommand::BindTexture { texture_id: 77 });
    assert_eq!(cmds[4], GlCommand::SetTextureFilter(TextureFilter::Linear));
    assert_eq!(count_draws(&cmds, PathPart::Fill), 1);
    assert_eq!(count_draws(&cmds, PathPart::Stroke), 0);
}

#[test]
fn concave_fill_goes_through_the_stencil() {
    let mut ctx = context();
    let paths = vec![
        PathInfo { convex: false, fill_vertex_count: 5, stroke_vertex_count: 12 },
        PathInfo { convex: true, fill_vertex_count: 3, stroke_vertex_count: 8 },
    ];
    let mut cmds = Vec::new();
    ctx.fill(&surface(), None, false, &paths, true, &mut cmds);
    assert_eq!(count_draws(&cmds, PathPart::Fill), 2);
    assert_eq!(count_draws(&cmds, PathPart::Stroke), 2);
    assert!(cmds.contains(&GlCommand::StencilOpSeparate {
        face: Face::Back,
        stencil_fail: StencilAction::Keep,
        depth_fail: StencilAction::Keep,
        pass: StencilAction::DecrWrap,
    }));
    assert!(cmds.contains(&GlCommand::StencilFunc { func: StencilFunction::NotEqual, reference: 0, mask: 0xff }));
    assert!(cmds.contains(&GlCommand::DrawFillBounds { vbo: 400, vao: 401, mode: DrawMode::TriangleStrip }));
    let start = State { stencil: false, color: true, cull: true, texture: false };
    let end = simulate(&cmds, start, |c, s| {
        assert!(s.stencil);
        if matches!(c, GlCommand::DrawPath { part: PathPart::Fill, .. }) {
            assert!(!s.color);
        } else {
            assert!(s.color);
        }
    });
    assert_eq!(end, State { stencil: false, color: true, cull: false, texture: false });
}

#[test]
fn single_concave_path_is_not_filled_directly() {
    let mut ctx = context();
    let paths = vec![PathInfo { convex: false, fill_vertex_count: 5, stroke_vertex_count: 0 }];
    let mut cmds = Vec::new();
    ctx.fill(&surface(), None, false, &paths, true, &mut cmds);
    assert!(cmds.contains(&GlCommand::Enable(GlCapability::StencilTest)));
    assert_eq!(count_draws(&cmds, PathPart::Stroke), 0);
}

#[test]
fn textured_triangles_bind_the_texture() {
    let mut ctx = context();
    let texture = GlTexture::created(9, 16, 16, ColorFormat::RGBA, true);
    let mut cmds = Vec::new();
    ctx.triangles_textured(&surface(), &texture, false, 6, &mut cmds);
    assert_eq!(
        &cmds[2..],
        &[
            GlCommand::Enable(GlCapability::Texture2D),
            GlCommand::BindTexture { texture_id: 9 },
            GlCommand::SetTextureFilter(TextureFilter::Nearest),
            GlCommand::UseProgram { program_id: 2 },
            GlCommand::SetTransform { location: 20 },
            GlCommand::SetFlippedY { location: 21, value: 1 },
            GlCommand::DrawArrays { vbo: 200, vao: 201, mode: DrawMode::Triangles, count: 6 },
        ]
    );
}

#[test]
fn y8_triangles_use_the_y8_pipeline() {
    let mut ctx = context();
    let texture = GlTexture::from_external(8, 32, 32, ColorFormat::Y8);
    let mut cmds = Vec::new();
    ctx.triangles_textured_y8(&surface(), &texture, true, 12, &mut cmds);
    assert_eq!(cmds[4], GlCommand::SetTextureFilter(TextureFilter::Linear));
    assert_eq!(cmds[5], GlCommand::UseProgram { program_id: 3 });
    assert_eq!(cmds[7], GlCommand::SetFlippedY { location: 31, value: 0 });
    assert_eq!(cmds[8], GlCommand::DrawArrays { vbo: 300, vao: 301, mode: DrawMode::Triangles, count: 12 });
}

#[test]
fn line_draws_three_vertices_as_lines() {
    let mut ctx = context();
    let mut cmds = Vec::new();
    ctx.line(&surface(), &mut cmds);
    assert_eq!(*cmds.last().unwrap(), GlCommand::DrawArrays { vbo: 100, vao: 101, mode: DrawMode::Lines, count: 3 });
    let mut cmds = Vec::new();
    ctx.triangles_colored(&surface(), 6, &mut cmds);
    assert_eq!(*cmds.last().unwrap(), GlCommand::DrawArrays { vbo: 100, vao: 101, mode: DrawMode::Triangles, count: 6 });
    let mut cmds = Vec::new();
    ctx.clear(&surface(), &mut cmds);
    assert_eq!(cmds.len(), 3);
    assert_eq!(cmds[2], GlCommand::ClearColor);
}

#[test]
fn paint_shader_codes_follow_the_texture() {
    assert_eq!(paint_shader_codes(None), (0, 0));
    let rgba = GlTexture::from_external(1, 1, 1, ColorFormat::RGBA);
    let y8 = GlTexture::from_external(2, 1, 1, ColorFormat::Y8);
    assert_eq!(paint_shader_codes(Some(&rgba)), (1, 0));
    assert_eq!(paint_shader_codes(Some(&y8)), (1, 1));
}

#[test]
fn fill_binds_the_target_and_only_an_image_paint() {
    let paths = vec![PathInfo { convex: false, fill_vertex_count: 4, stroke_vertex_count: 8 }];
    let mut with_image = Vec::new();
    context().fill(&surface(), Some(77), true, &paths, true, &mut with_image);
    let last_framebuffer = with_image.iter().rev().find_map(|c| match c {
        GlCommand::BindFramebuffer { framebuffer_id } => Some(*framebuffer_id),
        _ => None,
    });
    assert_eq!(last_framebuffer, Some(5));
    assert!(with_image.contains(&GlCommand::Viewport { width: 640, height: 480 }));
    let textures: Vec<u32> = with_image
        .iter()
        .filter_map(|c| match c {
            GlCommand::BindTexture { texture_id } => Some(*texture_id),
            _ => None,
        })
        .collect();
    assert_eq!(textures, vec![77]);
    assert!(with_image.contains(&GlCommand::SetTextureFilter(TextureFilter::Linear)));
    let mut without_image = Vec::new();
    context().fill(&surface(), None, false, &paths, true, &mut without_image);
    assert!(!without_image.iter().any(|c| matches!(c, GlCommand::BindTexture { .. } | GlCommand::SetTextureFilter(_))));
}
