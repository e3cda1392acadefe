use vstd::prelude::*;

use crate::gl_commands::{
    draws_use_stencil, fills_reach_only_stencil, lemma_run_append, lemma_writes_no_pixels, run, writes_no_pixels,
    GlState, StencilOps, DrawMode, Face, FragUniformsSource, GlCapability, GlCommand, PaintWidth, PathPart, StencilAction,
    StencilFunction, StrokeThreshold, TextureFilter,
};
use crate::pipelines::{ColoredPipeline, TexturedPipeline, TexturedY8Pipeline, UniversalPipeline};
use crate::texture::GlTexture;

verus! {

/// The color layout of a texture or a surface.
#[derive(Clone, Copy, Debug, PartialEq, Eq, Structural)]
pub enum ColorFormat {
    RGBA,
    Y8,
}

/// A framebuffer that can be drawn to.  A surface made for an offscreen
/// render target owns its framebuffer; a wrapped one does not.
pub struct GlSurface {
    pub framebuffer_id: u32,
    pub width: u16,
    pub height: u16,
    pub color_format: ColorFormat,
    pub is_owner: bool,
}

impl GlSurface {
    /// Wraps a framebuffer created elsewhere; it is not deleted with the surface.
    pub fn wrap_gl_framebuffer(framebuffer_id: u32, width: u16, height: u16, color_format: ColorFormat) -> (r: Self)
        ensures
            r == (GlSurface { framebuffer_id, width, height, color_format, is_owner: false }),
    {
        GlSurface { framebuffer_id, width, height, color_format, is_owner: false }
    }

    /// The surface of an offscreen render target: an RGBA framebuffer that the
    /// surface owns.
    pub fn render_target(framebuffer_id: u32, width: u16, height: u16) -> (r: Self)
        ensures
            r == (GlSurface { framebuffer_id, width, height, color_format: ColorFormat::RGBA, is_owner: true }),
    {
        GlSurface { framebuffer_id, width, height, color_format: ColorFormat::RGBA, is_owner: true }
    }

    pub fn update_size(&mut self, width: u16, height: u16)
        ensures
            *final(self) == (GlSurface { width, height, ..*old(self) }),
    {
        self.width = width;
        self.height = height;
    }

    pub fn get_size(&self) -> (r: (u16, u16))
        ensures
            r == (self.width, self.height),
    {
        (self.width, self.height)
    }

    /// Whether dropping the surface deletes its framebuffer.
    pub fn deletes_framebuffer_on_drop(&self) -> (r: bool)
        ensures
            r == self.is_owner,
    {
        self.is_owner
    }
}

/// What the render passes read of a tessellated path: whether it is convex
/// and how many vertices its fill and its stroke have.
#[derive(Clone, Copy, Debug, PartialEq, Eq, Structural)]
pub struct PathInfo {
    pub convex: bool,
    pub fill_vertex_count: usize,
    pub stroke_vertex_count: usize,
}

pub open spec fn has_part(p: PathInfo, part: PathPart) -> bool {
    match part {
        PathPart::Fill => p.fill_vertex_count > 0,
        PathPart::Stroke => p.stroke_vertex_count > 0,
    }
}

/// Binds the surface's framebuffer and sets the viewport to its size.
pub open spec fn target_commands(t: GlSurface) -> Seq<GlCommand> {
    seq![
        GlCommand::BindFramebuffer { framebuffer_id: t.framebuffer_id },
        GlCommand::Viewport { width: t.width, height: t.height },
    ]
}

pub open spec fn filter_for(filtering: bool) -> TextureFilter {
    if filtering {
        TextureFilter::Linear
    } else {
        TextureFilter::Nearest
    }
}

/// Enables texturing, binds the texture and sets its sampling.
pub open spec fn texture_binding(texture_id: u32, filtering: bool) -> Seq<GlCommand> {
    seq![
        GlCommand::Enable(GlCapability::Texture2D),
        GlCommand::BindTexture { texture_id },
        GlCommand::SetTextureFilter(filter_for(filtering)),
    ]
}

/// Binds `texture` and draws `count` vertices of the textured pipeline with it
/// as triangles.
pub open spec fn textured_commands(p: TexturedPipeline, texture: GlTexture, filtering: bool, count: usize) -> Seq<GlCommand> {
    texture_binding(texture.data.id, filtering) + seq![
        GlCommand::UseProgram { program_id: p.program },
        GlCommand::SetTransform { location: p.transform_location },
        GlCommand::SetFlippedY {
            location: p.flipped_y_location,
            value: if texture.data.flipped_y { 1i32 } else { 0i32 },
        },
        GlCommand::DrawArrays { vbo: p.vbo, vao: p.vao, mode: DrawMode::Triangles, count },
    ]
}

/// Binds `texture` and draws `count` vertices of the single channel textured pipeline with it
/// as triangles.
pub open spec fn textured_y8_commands(p: TexturedY8Pipeline, texture: GlTexture, filtering: bool, count: usize) -> Seq<GlCommand> {
    texture_binding(texture.data.id, filtering) + seq![
        GlCommand::UseProgram { program_id: p.program },
        GlCommand::SetTransform { location: p.transform_location },
        GlCommand::SetFlippedY {
            location: p.flipped_y_location,
            value: if texture.data.flipped_y { 1i32 } else { 0i32 },
        },
        GlCommand::DrawArrays { vbo: p.vbo, vao: p.vao, mode: DrawMode::Triangles, count },
    ]
}

/// Draws the `part` of each of the first `n` paths that has vertices for it,
/// in order.
pub open spec fn path_draws(
    paths: Seq<PathInfo>,
    n: int,
    part: PathPart,
    mode: DrawMode,
    vbo: u32,
    vao: u32,
) -> Seq<GlCommand>
    decreases n,
{
    if n <= 0 {
        Seq::empty()
    } else {
        path_draws(paths, n - 1, part, mode, vbo, vao) + if has_part(paths[n - 1], part) {
            seq![GlCommand::DrawPath { vbo, vao, path: (n - 1) as usize, part, mode }]
        } else {
            Seq::empty()
        }
    }
}

pub open spec fn stroke_draws(u: UniversalPipeline, paths: Seq<PathInfo>) -> Seq<GlCommand> {
    path_draws(paths, paths.len() as int, PathPart::Stroke, DrawMode::TriangleStrip, u.vbo, u.vao)
}

pub open spec fn fill_draws(u: UniversalPipeline, paths: Seq<PathInfo>) -> Seq<GlCommand> {
    path_draws(paths, paths.len() as int, PathPart::Fill, DrawMode::TriangleFan, u.vbo, u.vao)
}

pub open spec fn stencil_func(func: StencilFunction) -> GlCommand {
    GlCommand::StencilFunc { func, reference: 0, mask: 0xff }
}

pub open spec fn stencil_op(action: StencilAction, pass: StencilAction) -> GlCommand {
    GlCommand::StencilOp { stencil_fail: action, depth_fail: action, pass }
}

pub open spec fn paint_uniforms(u: UniversalPipeline, width: PaintWidth, threshold: StrokeThreshold) -> GlCommand {
    GlCommand::ApplyFragUniforms {
        buffer: u.frag_uniform_buf,
        source: FragUniformsSource::Paint { width, threshold },
    }
}

/// The stroke pass: with the stencil test on, the strokes are drawn once
/// where the stencil is still zero (so overlapping parts are not blended
/// twice), once more for the anti-aliased fringe when anti-aliasing is on,
/// and a last time with color writes off to clear the stencil again.
pub open spec fn stroke_pass(u: UniversalPipeline, paths: Seq<PathInfo>, antialiasing: bool) -> Seq<GlCommand> {
    let draws = stroke_draws(u, paths);
    stroke_head(u, antialiasing) + draws + (if antialiasing {
        stroke_fringe_head(u) + draws
    } else {
        Seq::empty()
    }) + stroke_clear_head() + draws + stroke_tail()
}

/// Makes the universal program current and sets up drawing where the
/// stencil is zero, incrementing it where a stroke is drawn.
pub open spec fn stroke_head(u: UniversalPipeline, antialiasing: bool) -> Seq<GlCommand> {
    seq![
        GlCommand::UseProgram { program_id: u.program },
        GlCommand::SetTransform { location: u.transform_location },
        GlCommand::Enable(GlCapability::StencilTest),
        GlCommand::StencilMask(0xff),
        stencil_func(StencilFunction::Equal),
        stencil_op(StencilAction::Keep, StencilAction::Incr),
        paint_uniforms(
            u,
            PaintWidth::StrokeThickness,
            if antialiasing { StrokeThreshold::Antialiased } else { StrokeThreshold::Disabled },
        ),
    ]
}

/// Draws only where the stencil is zero and leaves the stencil as it is.
pub open spec fn stencil_keep_where_zero() -> Seq<GlCommand> {
    seq![stencil_func(StencilFunction::Equal), stencil_op(StencilAction::Keep, StencilAction::Keep)]
}

/// Sets up drawing the anti-aliased fringe of the strokes.
pub open spec fn stroke_fringe_head(u: UniversalPipeline) -> Seq<GlCommand> {
    seq![paint_uniforms(u, PaintWidth::StrokeThickness, StrokeThreshold::Disabled)] + stencil_keep_where_zero()
}

/// Turns color writes off and sets up zeroing the stencil wherever a
/// stroke is drawn.
pub open spec fn stroke_clear_head() -> Seq<GlCommand> {
    seq![
        GlCommand::ColorMask(false),
        stencil_func(StencilFunction::Always),
        stencil_op(StencilAction::Zero, StencilAction::Zero),
    ]
}

/// Turns color writes back on and the stencil test off.
pub open spec fn stroke_tail() -> Seq<GlCommand> {
    seq![GlCommand::ColorMask(true), GlCommand::Disable(GlCapability::StencilTest)]
}

/// A convex single path is filled directly, with its anti-aliased outline
/// drawn over it when anti-aliasing is on.
pub open spec fn convex_fill_pass(u: UniversalPipeline, p: PathInfo, antialiasing: bool) -> Seq<GlCommand> {
    convex_fill_head(u) + (if has_part(p, PathPart::Fill) {
        seq![GlCommand::DrawPath { vbo: u.vbo, vao: u.vao, path: 0, part: PathPart::Fill, mode: DrawMode::TriangleFan }]
    } else {
        Seq::empty()
    }) + (if antialiasing && has_part(p, PathPart::Stroke) {
        seq![GlCommand::DrawPath { vbo: u.vbo, vao: u.vao, path: 0, part: PathPart::Stroke, mode: DrawMode::TriangleStrip }]
    } else {
        Seq::empty()
    })
}

/// Makes the universal program current and uploads the paint.
pub open spec fn convex_fill_head(u: UniversalPipeline) -> Seq<GlCommand> {
    seq![
        GlCommand::UseProgram { program_id: u.program },
        GlCommand::SetTransform { location: u.transform_location },
        paint_uniforms(u, PaintWidth::FringeWidth, StrokeThreshold::Disabled),
    ]
}

/// Any other fill goes through the stencil buffer: the fills are counted into
/// it with color writes off (front faces increment, back faces decrement),
/// the anti-aliased fringe is drawn where the stencil is zero, and the
/// bounding quad covers every pixel whose count is not zero, clearing the
/// stencil as it goes.
pub open spec fn stencil_fill_pass(u: UniversalPipeline, paths: Seq<PathInfo>, antialiasing: bool) -> Seq<GlCommand> {
    stencil_fill_head(u) + fill_draws(u, paths) + stencil_fill_cover(u) + (if antialiasing {
        stencil_keep_where_zero() + stroke_draws(u, paths)
    } else {
        Seq::empty()
    }) + stencil_fill_tail(u)
}

/// Sets up counting the fills into the stencil buffer with color writes off.
pub open spec fn stencil_fill_head(u: UniversalPipeline) -> Seq<GlCommand> {
    seq![
        GlCommand::UseProgram { program_id: u.program },
        GlCommand::SetTransform { location: u.transform_location },
        GlCommand::Enable(GlCapability::StencilTest),
        GlCommand::StencilMask(0xff),
        stencil_func(StencilFunction::Always),
        GlCommand::ColorMask(false),
        GlCommand::ApplyFragUniforms { buffer: u.frag_uniform_buf, source: FragUniformsSource::StencilOnly },
        GlCommand::StencilOpSeparate {
            face: Face::Front,
            stencil_fail: StencilAction::Keep,
            depth_fail: StencilAction::Keep,
            pass: StencilAction::IncrWrap,
        },
        GlCommand::StencilOpSeparate {
            face: Face::Back,
            stencil_fail: StencilAction::Keep,
            depth_fail: StencilAction::Keep,
            pass: StencilAction::DecrWrap,
        },
        GlCommand::Disable(GlCapability::CullFace),
    ]
}

/// Turns color writes back on and uploads the paint.
pub open spec fn stencil_fill_cover(u: UniversalPipeline) -> Seq<GlCommand> {
    seq![
        GlCommand::Enable(GlCapability::CullFace),
        GlCommand::CullFace(Face::Back),
        GlCommand::ColorMask(true),
        paint_uniforms(u, PaintWidth::FringeWidth, StrokeThreshold::Disabled),
    ]
}

/// Covers the counted pixels with the bounding quad, clearing the stencil.
pub open spec fn stencil_fill_tail(u: UniversalPipeline) -> Seq<GlCommand> {
    seq![
        GlCommand::Disable(GlCapability::CullFace),
        stencil_func(StencilFunction::NotEqual),
        stencil_op(StencilAction::Zero, StencilAction::Zero),
        fill_bounds_draw(u),
        GlCommand::Disable(GlCapability::StencilTest),
    ]
}

/// Draws the bounding quad of the paths being filled.
pub open spec fn fill_bounds_draw(u: UniversalPipeline) -> GlCommand {
    GlCommand::DrawFillBounds { vbo: u.vbo, vao: u.vao, mode: DrawMode::TriangleStrip }
}

/// Whether the fill takes the direct convex path.
pub open spec fn is_convex_fill(paths: Seq<PathInfo>) -> bool {
    paths.len() == 1 && paths[0].convex
}

/// The fill pass: the image of an image paint is bound first, then the
/// paths are filled directly or through the stencil buffer.
pub open spec fn fill_pass(
    u: UniversalPipeline,
    paths: Seq<PathInfo>,
    antialiasing: bool,
    image: Option<u32>,
    filtering: bool,
) -> Seq<GlCommand> {
    (match image {
        Some(id) => texture_binding(id, filtering),
        None => Seq::empty(),
    }) + if is_convex_fill(paths) {
        convex_fill_pass(u, paths[0], antialiasing)
    } else {
        stencil_fill_pass(u, paths, antialiasing)
    }
}

/// Per-context state: the pipelines and the vertex buffers and vertex arrays
/// created for them in this context.
pub struct GlContextData {
    pub colored_pipeline: ColoredPipeline,
    pub colored_pipeline_buffers: (u32, u32),
    pub textured_pipeline: TexturedPipeline,
    pub textured_pipeline_buffers: (u32, u32),
    pub textured_y8_pipeline: TexturedY8Pipeline,
    pub textured_y8_pipeline_buffers: (u32, u32),
    pub universal_pipeline: UniversalPipeline,
    pub universal_pipeline_buffers: (u32, u32),
}


/// The texture type the fragment shader reads: 1 for single channel (red)
/// textures, 0 for the others.
pub fn texture_type_code(format: crate::texture::GlPixelFormat) -> (r: i32)
    ensures
        r == if format == crate::texture::GlPixelFormat::Red { 1i32 } else { 0i32 },
{
    match format {
        crate::texture::GlPixelFormat::Bgra => 0,
        crate::texture::GlPixelFormat::Red => 1,
        _ => 0,
    }
}

/// The shader type and texture type of the fragment uniforms for a paint:
/// an image fill when the paint has a texture, a gradient fill otherwise.
pub fn paint_shader_codes(texture: Option<&GlTexture>) -> (r: (i32, i32))
    ensures
        r == match texture {
            Some(t) => (1i32, if t.data.gl_format == crate::texture::GlPixelFormat::Red { 1i32 } else { 0i32 }),
            None => (0i32, 0i32),
        },
{
    match texture {
        Some(t) => (crate::pipelines::shader_type_code(crate::pipelines::ShaderType::FillImage), texture_type_code(t.data.gl_format)),
        None => (crate::pipelines::shader_type_code(crate::pipelines::ShaderType::FillGradient), 0),
    }
}

fn push_render_target(target: &GlSurface, commands: &mut Vec<GlCommand>)
    ensures
        final(commands)@ == old(commands)@ + target_commands(*target),
{
    let ghost before = commands@;
    commands.push(GlCommand::BindFramebuffer { framebuffer_id: target.framebuffer_id });
    commands.push(GlCommand::Viewport { width: target.width, height: target.height });
    assert(commands@ =~= before + target_commands(*target));
}

fn push_texture_binding(texture_id: u32, filtering: bool, commands: &mut Vec<GlCommand>)
    ensures
        final(commands)@ == old(commands)@ + texture_binding(texture_id, filtering),
{
    let ghost before = commands@;
    commands.push(GlCommand::Enable(GlCapability::Texture2D));
    commands.push(GlCommand::BindTexture { texture_id });
    commands.push(GlCommand::SetTextureFilter(if filtering { TextureFilter::Linear } else { TextureFilter::Nearest }));
    assert(commands@ =~= before + texture_binding(texture_id, filtering));
}

fn push_path_draws(
    paths: &Vec<PathInfo>,
    part: PathPart,
    mode: DrawMode,
    vbo: u32,
    vao: u32,
    commands: &mut Vec<GlCommand>,
)
    ensures
        final(commands)@ == old(commands)@ + path_draws(paths@, paths@.len() as int, part, mode, vbo, vao),
{
    let ghost before = commands@;
    let mut i: usize = 0;
    assert(before =~= before + path_draws(paths@, 0, part, mode, vbo, vao));
    while i < paths.len()
        invariant
            i <= paths@.len(),
            commands@ == before + path_draws(paths@, i as int, part, mode, vbo, vao),
        decreases paths@.len() - i,
    {
        let p = paths[i];
        let ghost prefix = commands@;
        let has = match part {
            PathPart::Fill => p.fill_vertex_count > 0,
            PathPart::Stroke => p.stroke_vertex_count > 0,
        };
        if has {
            commands.push(GlCommand::DrawPath { vbo, vao, path: i, part, mode });
            assert(commands@ =~= before + path_draws(paths@, i + 1, part, mode, vbo, vao));
        } else {
            assert(commands@ =~= before + path_draws(paths@, i + 1, part, mode, vbo, vao));
        }
        i = i + 1;
    }
}

fn push_stencil_func(func: StencilFunction, commands: &mut Vec<GlCommand>)
    ensures
        final(commands)@ == old(commands)@.push(stencil_func(func)),
{
    commands.push(GlCommand::StencilFunc { func, reference: 0, mask: 0xff });
}

fn push_stencil_op(action: StencilAction, pass: StencilAction, commands: &mut Vec<GlCommand>)
    ensures
        final(commands)@ == old(commands)@.push(stencil_op(action, pass)),
{
    commands.push(GlCommand::StencilOp { stencil_fail: action, depth_fail: action, pass });
}

fn push_paint_uniforms(
    u: &mut UniversalPipeline,
    width: PaintWidth,
    threshold: StrokeThreshold,
    commands: &mut Vec<GlCommand>,
)
    ensures
        *final(u) == *old(u),
        final(commands)@ == old(commands)@.push(paint_uniforms(*old(u), width, threshold)),
{
    u.apply_frag_uniforms(FragUniformsSource::Paint { width, threshold }, commands);
}

fn push_stencil_keep_where_zero(commands: &mut Vec<GlCommand>)
    ensures
        final(commands)@ == old(commands)@ + stencil_keep_where_zero(),
{
    let ghost before = commands@;
    push_stencil_func(StencilFunction::Equal, commands);
    push_stencil_op(StencilAction::Keep, StencilAction::Keep, commands);
    assert(commands@ =~= before + stencil_keep_where_zero());
}

fn push_stroke_clear_head(commands: &mut Vec<GlCommand>)
    ensures
        final(commands)@ == old(commands)@ + stroke_clear_head(),
{
    let ghost before = commands@;
    commands.push(GlCommand::ColorMask(false));
    push_stencil_func(StencilFunction::Always, commands);
    push_stencil_op(StencilAction::Zero, StencilAction::Zero, commands);
    assert(commands@ =~= before + stroke_clear_head());
}

fn push_stroke_tail(commands: &mut Vec<GlCommand>)
    ensures
        final(commands)@ == old(commands)@ + stroke_tail(),
{
    let ghost before = commands@;
    commands.push(GlCommand::ColorMask(true));
    commands.push(GlCommand::Disable(GlCapability::StencilTest));
    assert(commands@ =~= before + stroke_tail());
}

impl GlContextData {
    /// Assembles the data of a context: each pipeline is switched to the
    /// vertex buffer and vertex array created for it in this context.
    pub fn from_pipelines(
        colored_pipeline: ColoredPipeline,
        colored_pipeline_buffers: (u32, u32),
        textured_pipeline: TexturedPipeline,
        textured_pipeline_buffers: (u32, u32),
        textured_y8_pipeline: TexturedY8Pipeline,
        textured_y8_pipeline_buffers: (u32, u32),
        universal_pipeline: UniversalPipeline,
        universal_pipeline_buffers: (u32, u32),
    ) -> (r: Self)
        ensures
            r.colored_pipeline == (ColoredPipeline {
                vbo: colored_pipeline_buffers.0,
                vao: colored_pipeline_buffers.1,
                ..colored_pipeline
            }),
            r.colored_pipeline_buffers == colored_pipeline_buffers,
            r.textured_pipeline == (TexturedPipeline {
                vbo: textured_pipeline_buffers.0,
                vao: textured_pipeline_buffers.1,
                ..textured_pipeline
            }),
            r.textured_pipeline_buffers == textured_pipeline_buffers,
            r.textured_y8_pipeline == (TexturedY8Pipeline {
                vbo: textured_y8_pipeline_buffers.0,
                vao: textured_y8_pipeline_buffers.1,
                ..textured_y8_pipeline
            }),
            r.textured_y8_pipeline_buffers == textured_y8_pipeline_buffers,
            r.universal_pipeline == (UniversalPipeline {
                vbo: universal_pipeline_buffers.0,
                vao: universal_pipeline_buffers.1,
                ..universal_pipeline
            }),
            r.universal_pipeline_buffers == universal_pipeline_buffers,
    {
        let mut colored_pipeline = colored_pipeline;
        let mut textured_pipeline = textured_pipeline;
        let mut textured_y8_pipeline = textured_y8_pipeline;
        let mut universal_pipeline = universal_pipeline;
        colored_pipeline.set_buffers(colored_pipeline_buffers);
        textured_pipeline.set_buffers(textured_pipeline_buffers);
        textured_y8_pipeline.set_buffers(textured_y8_pipeline_buffers);
        universal_pipeline.set_buffers(universal_pipeline_buffers);
        GlContextData {
            colored_pipeline,
            colored_pipeline_buffers,
            textured_pipeline,
            textured_pipeline_buffers,
            textured_y8_pipeline,
            textured_y8_pipeline_buffers,
            universal_pipeline,
            universal_pipeline_buffers,
        }
    }

    /// Appends the commands that make `target` the framebuffer drawn to.
    pub fn set_render_target(&mut self, target: &GlSurface, commands: &mut Vec<GlCommand>)
        ensures
            *final(self) == *old(self),
            final(commands)@ == old(commands)@ + target_commands(*target),
    {
        push_render_target(target, commands);
    }

    /// Appends the commands that clear `target` with the caller's color.
    pub fn clear(&mut self, target: &GlSurface, commands: &mut Vec<GlCommand>)
        ensures
            *final(self) == *old(self),
            final(commands)@ == old(commands)@ + target_commands(*target) + seq![GlCommand::ClearColor],
    {
        let ghost before = commands@;
        push_render_target(target, commands);
        commands.push(GlCommand::ClearColor);
        assert(commands@ =~= before + target_commands(*target) + seq![GlCommand::ClearColor]);
    }

    /// Appends the commands that draw `count` colored vertices as triangles
    /// into `target`.
    pub fn triangles_colored(&mut self, target: &GlSurface, count: usize, commands: &mut Vec<GlCommand>)
        ensures
            *final(self) == *old(self),
            final(commands)@ == old(commands)@ + target_commands(*target) + seq![
                GlCommand::UseProgram { program_id: old(self).colored_pipeline.program },
                GlCommand::SetTransform { location: old(self).colored_pipeline.transform_location },
                GlCommand::DrawArrays {
                    vbo: old(self).colored_pipeline.vbo,
                    vao: old(self).colored_pipeline.vao,
                    mode: DrawMode::Triangles,
                    count,
                },
            ],
    {
        let ghost before = commands@;
        push_render_target(target, commands);
        self.colored_pipeline.apply(commands);
        self.colored_pipeline.set_transform(commands);
        self.colored_pipeline.draw(count, commands);
        assert(commands@ =~= before + target_commands(*target) + seq![
            GlCommand::UseProgram { program_id: self.colored_pipeline.program },
            GlCommand::SetTransform { location: self.colored_pipeline.transform_location },
            GlCommand::DrawArrays {
                vbo: self.colored_pipeline.vbo,
                vao: self.colored_pipeline.vao,
                mode: DrawMode::Triangles,
                count,
            },
        ]);
    }

    /// Appends the commands that draw a line from the start point to the end
    /// point: the colored pipeline draws three vertices (start, end, start)
    /// as lines.
    pub fn line(&mut self, target: &GlSurface, commands: &mut Vec<GlCommand>)
        ensures
            *final(self) == *old(self),
            final(commands)@ == old(commands)@ + target_commands(*target) + seq![
                GlCommand::UseProgram { program_id: old(self).colored_pipeline.program },
                GlCommand::SetTransform { location: old(self).colored_pipeline.transform_location },
                GlCommand::DrawArrays {
                    vbo: old(self).colored_pipeline.vbo,
                    vao: old(self).colored_pipeline.vao,
                    mode: DrawMode::Lines,
                    count: 3,
                },
            ],
    {
        let ghost before = commands@;
        push_render_target(target, commands);
        self.colored_pipeline.apply(commands);
        self.colored_pipeline.set_transform(commands);
        self.colored_pipeline.draw_lines(3, commands);
        assert(commands@ =~= before + target_commands(*target) + seq![
            GlCommand::UseProgram { program_id: self.colored_pipeline.program },
            GlCommand::SetTransform { location: self.colored_pipeline.transform_location },
            GlCommand::DrawArrays {
                vbo: self.colored_pipeline.vbo,
                vao: self.colored_pipeline.vao,
                mode: DrawMode::Lines,
                count: 3,
            },
        ]);
    }

    /// Appends the commands that draw `count` vertices textured with an RGBA
    /// texture into `target`.
    pub fn triangles_textured(
        &mut self,
        target: &GlSurface,
        texture: &GlTexture,
        filtering: bool,
        count: usize,
        commands: &mut Vec<GlCommand>,
    )
        ensures
            *final(self) == *old(self),
            final(commands)@ == old(commands)@ + target_commands(*target) + textured_commands(
                old(self).textured_pipeline,
                *texture,
                filtering,
                count,
            ),
    {
        let ghost before = commands@;
        push_render_target(target, commands);
        push_texture_binding(texture.data.id, filtering, commands);
        self.textured_pipeline.apply(commands);
        self.textured_pipeline.set_transform(commands);
        self.textured_pipeline.set_flipped_y(texture.data.flipped_y, commands);
        self.textured_pipeline.draw(count, commands);
        assert(commands@ =~= before + target_commands(*target) + textured_commands(self.textured_pipeline, *texture, filtering, count));
    }

    /// Appends the commands that draw `count` vertices textured with a single
    /// channel texture (glyph bitmaps) into `target`.
    pub fn triangles_textured_y8(
        &mut self,
        target: &GlSurface,
        texture: &GlTexture,
        filtering: bool,
        count: usize,
        commands: &mut Vec<GlCommand>,
    )
        ensures
            *final(self) == *old(self),
            final(commands)@ == old(commands)@ + target_commands(*target) + textured_y8_commands(
                old(self).textured_y8_pipeline,
                *texture,
                filtering,
                count,
            ),
    {
        let ghost before = commands@;
        push_render_target(target, commands);
        push_texture_binding(texture.data.id, filtering, commands);
        self.textured_y8_pipeline.apply(commands);
        self.textured_y8_pipeline.set_transform(commands);
        self.textured_y8_pipeline.set_flipped_y(texture.data.flipped_y, commands);
        self.textured_y8_pipeline.draw(count, commands);
        assert(commands@ =~= before + target_commands(*target) + textured_y8_commands(self.textured_y8_pipeline, *texture, filtering, count));
    }

    /// Appends the commands that stroke the tessellated `paths` into `target`
    /// (see `stroke_pass`).
    pub fn stroke(
        &mut self,
        target: &GlSurface,
        paths: &Vec<PathInfo>,
        antialiasing: bool,
        commands: &mut Vec<GlCommand>,
    )
        ensures
            *final(self) == *old(self),
            final(commands)@ == old(commands)@ + target_commands(*target) + stroke_pass(
                old(self).universal_pipeline,
                paths@,
                antialiasing,
            ),
    {
        let ghost before = commands@;
        let ghost u = self.universal_pipeline;
        let ghost draws = stroke_draws(u, paths@);
        let vbo = self.universal_pipeline.vbo;
        let vao = self.universal_pipeline.vao;
        push_render_target(target, commands);
        self.push_stroke_head(antialiasing, commands);
        push_path_draws(paths, PathPart::Stroke, DrawMode::TriangleStrip, vbo, vao, commands);
        let ghost c1 = commands@;
        if antialiasing {
            push_paint_uniforms(&mut self.universal_pipeline, PaintWidth::StrokeThickness, StrokeThreshold::Disabled, commands);
            push_stencil_keep_where_zero(commands);
            push_path_draws(paths, PathPart::Stroke, DrawMode::TriangleStrip, vbo, vao, commands);
            assert(commands@ =~= c1 + stroke_fringe_head(u) + draws);
        }
        push_stroke_clear_head(commands);
        push_path_draws(paths, PathPart::Stroke, DrawMode::TriangleStrip, vbo, vao, commands);
        push_stroke_tail(commands);
        assert(commands@ =~= before + target_commands(*target) + stroke_pass(u, paths@, antialiasing));
    }

    /// Appends the commands that fill the tessellated `paths` into `target`
    /// (see `fill_pass`); `image` is the native handle of the paint's image.
    pub fn fill(
        &mut self,
        target: &GlSurface,
        image: Option<u32>,
        filtering: bool,
        paths: &Vec<PathInfo>,
        antialiasing: bool,
        commands: &mut Vec<GlCommand>,
    )
        ensures
            *final(self) == *old(self),
            final(commands)@ == old(commands)@ + target_commands(*target) + fill_pass(
                old(self).universal_pipeline,
                paths@,
                antialiasing,
                image,
                filtering,
            ),
    {
        let ghost before = commands@;
        let ghost u = self.universal_pipeline;
        push_render_target(target, commands);
        let ghost c0 = commands@;
        match image {
            Some(id) => push_texture_binding(id, filtering, commands),
            None => {},
        }
        let ghost binding = match image {
            Some(id) => texture_binding(id, filtering),
            None => Seq::<GlCommand>::empty(),
        };
        let ghost c1 = commands@;
        assert(c1 =~= c0 + binding);
        if paths.len() == 1 && paths[0].convex {
            self.push_convex_fill(paths, antialiasing, commands);
        } else {
            self.push_stencil_fill(paths, antialiasing, commands);
        }
        assert(commands@ =~= before + target_commands(*target) + fill_pass(u, paths@, antialiasing, image, filtering));
    }

    fn push_convex_fill(&mut self, paths: &Vec<PathInfo>, antialiasing: bool, commands: &mut Vec<GlCommand>)
        requires
            paths@.len() == 1,
        ensures
            *final(self) == *old(self),
            final(commands)@ == old(commands)@ + convex_fill_pass(old(self).universal_pipeline, paths@[0], antialiasing),
    {
        let ghost before = commands@;
        let ghost u = self.universal_pipeline;
        let vbo = self.universal_pipeline.vbo;
        let vao = self.universal_pipeline.vao;
        self.universal_pipeline.apply(commands);
        self.universal_pipeline.set_transform(commands);
        push_paint_uniforms(&mut self.universal_pipeline, PaintWidth::FringeWidth, StrokeThreshold::Disabled, commands);
        if paths[0].fill_vertex_count > 0 {
            commands.push(GlCommand::DrawPath { vbo, vao, path: 0, part: PathPart::Fill, mode: DrawMode::TriangleFan });
        }
        if antialiasing && paths[0].stroke_vertex_count > 0 {
            commands.push(GlCommand::DrawPath { vbo, vao, path: 0, part: PathPart::Stroke, mode: DrawMode::TriangleStrip });
        }
        assert(commands@ =~= before + convex_fill_pass(u, paths@[0], antialiasing));
    }

    fn push_stencil_fill(&mut self, paths: &Vec<PathInfo>, antialiasing: bool, commands: &mut Vec<GlCommand>)
        ensures
            *final(self) == *old(self),
            final(commands)@ == old(commands)@ + stencil_fill_pass(old(self).universal_pipeline, paths@, antialiasing),
    {
        let ghost before = commands@;
        let ghost u = self.universal_pipeline;
        let vbo = self.universal_pipeline.vbo;
        let vao = self.universal_pipeline.vao;
        self.push_stencil_fill_head(commands);
        push_path_draws(paths, PathPart::Fill, DrawMode::TriangleFan, vbo, vao, commands);
        self.push_stencil_fill_cover(commands);
        let ghost c2 = commands@;
        let ghost aa_part = if antialiasing {
            stencil_keep_where_zero() + stroke_draws(u, paths@)
        } else {
            Seq::empty()
        };
        if antialiasing {
            push_stencil_keep_where_zero(commands);
            push_path_draws(paths, PathPart::Stroke, DrawMode::TriangleStrip, vbo, vao, commands);
        }
        assert(commands@ =~= c2 + aa_part);
        self.push_stencil_fill_tail(commands);
        assert(commands@ =~= before + stencil_fill_pass(u, paths@, antialiasing));
    }

    fn push_stroke_head(&mut self, antialiasing: bool, commands: &mut Vec<GlCommand>)
        ensures
            *final(self) == *old(self),
            final(commands)@ == old(commands)@ + stroke_head(old(self).universal_pipeline, antialiasing),
    {
        let ghost before = commands@;
        self.universal_pipeline.apply(commands);
        self.universal_pipeline.set_transform(commands);
        commands.push(GlCommand::Enable(GlCapability::StencilTest));
        commands.push(GlCommand::StencilMask(0xff));
        push_stencil_func(StencilFunction::Equal, commands);
        push_stencil_op(StencilAction::Keep, StencilAction::Incr, commands);
        if antialiasing {
            push_paint_uniforms(&mut self.universal_pipeline, PaintWidth::StrokeThickness, StrokeThreshold::Antialiased, commands);
        } else {
            push_paint_uniforms(&mut self.universal_pipeline, PaintWidth::StrokeThickness, StrokeThreshold::Disabled, commands);
        }
        assert(commands@ =~= before + stroke_head(self.universal_pipeline, antialiasing));
    }

    fn push_stencil_fill_head(&mut self, commands: &mut Vec<GlCommand>)
        ensures
            *final(self) == *old(self),
            final(commands)@ == old(commands)@ + stencil_fill_head(old(self).universal_pipeline),
    {
        let ghost before = commands@;
        self.universal_pipeline.apply(commands);
        self.universal_pipeline.set_transform(commands);
        commands.push(GlCommand::Enable(GlCapability::StencilTest));
        commands.push(GlCommand::StencilMask(0xff));
        push_stencil_func(StencilFunction::Always, commands);
        commands.push(GlCommand::ColorMask(false));
        self.universal_pipeline.apply_frag_uniforms(FragUniformsSource::StencilOnly, commands);
        commands.push(GlCommand::StencilOpSeparate {
            face: Face::Front,
            stencil_fail: StencilAction::Keep,
            depth_fail: StencilAction::Keep,
            pass: StencilAction::IncrWrap,
        });
        commands.push(GlCommand::StencilOpSeparate {
            face: Face::Back,
            stencil_fail: StencilAction::Keep,
            depth_fail: StencilAction::Keep,
            pass: StencilAction::DecrWrap,
        });
        commands.push(GlCommand::Disable(GlCapability::CullFace));
        assert(commands@ =~= before + stencil_fill_head(self.universal_pipeline));
    }

    fn push_stencil_fill_cover(&mut self, commands: &mut Vec<GlCommand>)
        ensures
            *final(self) == *old(self),
            final(commands)@ == old(commands)@ + stencil_fill_cover(old(self).universal_pipeline),
    {
        let ghost before = commands@;
        commands.push(GlCommand::Enable(GlCapability::CullFace));
        commands.push(GlCommand::CullFace(Face::Back));
        commands.push(GlCommand::ColorMask(true));
        push_paint_uniforms(&mut self.universal_pipeline, PaintWidth::FringeWidth, StrokeThreshold::Disabled, commands);
        assert(commands@ =~= before + stencil_fill_cover(self.universal_pipeline));
    }

    fn push_stencil_fill_tail(&mut self, commands: &mut Vec<GlCommand>)
        ensures
            *final(self) == *old(self),
            final(commands)@ == old(commands)@ + stencil_fill_tail(old(self).universal_pipeline),
    {
        let ghost before = commands@;
        let vbo = self.universal_pipeline.vbo;
        let vao = self.universal_pipeline.vao;
        commands.push(GlCommand::Disable(GlCapability::CullFace));
        push_stencil_func(StencilFunction::NotEqual, commands);
        push_stencil_op(StencilAction::Zero, StencilAction::Zero, commands);
        commands.push(GlCommand::DrawFillBounds { vbo, vao, mode: DrawMode::TriangleStrip });
        commands.push(GlCommand::Disable(GlCapability::StencilTest));
        assert(commands@ =~= before + stencil_fill_tail(self.universal_pipeline));
    }
}


pub(crate) proof fn lemma_path_draws_neutral(
    s: GlState,
    paths: Seq<PathInfo>,
    n: int,
    part: PathPart,
    mode: DrawMode,
    vbo: u32,
    vao: u32,
)
    ensures
        run(s, path_draws(paths, n, part, mode, vbo, vao)) == s,
        s.stencil_test ==> draws_use_stencil(s, path_draws(paths, n, part, mode, vbo, vao)),
        (part == PathPart::Stroke || (!s.color_write && s.stencil_test)) ==> fills_reach_only_stencil(
            s,
            path_draws(paths, n, part, mode, vbo, vao),
        ),
    decreases n,
{
    if n > 0 {
        let prev = path_draws(paths, n - 1, part, mode, vbo, vao);
        let last = if has_part(paths[n - 1], part) {
            seq![GlCommand::DrawPath { vbo, vao, path: (n - 1) as usize, part, mode }]
        } else {
            Seq::empty()
        };
        lemma_path_draws_neutral(s, paths, n - 1, part, mode, vbo, vao);
        lemma_run_append(s, prev, last);
        reveal_with_fuel(run, 2);
        reveal_with_fuel(draws_use_stencil, 2);
        reveal_with_fuel(fills_reach_only_stencil, 2);
    }
}

pub(crate) proof fn lemma_target_neutral(s: GlState, t: GlSurface)
    ensures
        run(s, target_commands(t)) == (GlState {
            framebuffer: t.framebuffer_id,
            viewport: (t.width, t.height),
            ..s
        }),
        writes_no_pixels(target_commands(t)),
        draws_use_stencil(s, target_commands(t)),
        fills_reach_only_stencil(s, target_commands(t)),
{
    reveal_with_fuel(run, 3);
    reveal_with_fuel(writes_no_pixels, 3);
    lemma_writes_no_pixels(s, target_commands(t));
}

/// `s` with the stencil test comparing with `func` against reference 0 over
/// all eight bits, and `front` and `back` as the actions of the two faces.
pub open spec fn stencil_setup(s: GlState, func: StencilFunction, front: StencilOps, back: StencilOps) -> GlState {
    GlState {
        stencil_func: func,
        stencil_ref: 0,
        stencil_value_mask: 0xff,
        front_stencil_ops: front,
        back_stencil_ops: back,
        ..s
    }
}

/// The actions that `stencil_op(action, pass)` gives both faces.
pub open spec fn ops_of(action: StencilAction, pass: StencilAction) -> StencilOps {
    StencilOps { stencil_fail: action, depth_fail: action, pass }
}

pub(crate) proof fn lemma_texture_binding_run(s: GlState, texture_id: u32, filtering: bool)
    ensures
        writes_no_pixels(texture_binding(texture_id, filtering)),
        run(s, texture_binding(texture_id, filtering)) == (GlState {
            texture_2d: true,
            bound_texture: texture_id,
            texture_filter: filter_for(filtering),
            ..s
        }),
{
    reveal_with_fuel(run, 4);
    reveal_with_fuel(writes_no_pixels, 4);
}

pub(crate) proof fn lemma_stroke_head_run(s: GlState, u: UniversalPipeline, antialiasing: bool)
    ensures
        writes_no_pixels(stroke_head(u, antialiasing)),
        run(s, stroke_head(u, antialiasing)) == (GlState {
            stencil_test: true,
            stencil_write_mask: 0xff,
            ..stencil_setup(
                s,
                StencilFunction::Equal,
                ops_of(StencilAction::Keep, StencilAction::Incr),
                ops_of(StencilAction::Keep, StencilAction::Incr),
            )
        }),
{
    reveal_with_fuel(run, 8);
    reveal_with_fuel(writes_no_pixels, 8);
}

pub(crate) proof fn lemma_keep_where_zero_run(s: GlState, u: UniversalPipeline)
    ensures
        writes_no_pixels(stencil_keep_where_zero()),
        writes_no_pixels(stroke_fringe_head(u)),
        run(s, stencil_keep_where_zero()) == stencil_setup(
            s,
            StencilFunction::Equal,
            ops_of(StencilAction::Keep, StencilAction::Keep),
            ops_of(StencilAction::Keep, StencilAction::Keep),
        ),
        run(s, stroke_fringe_head(u)) == run(s, stencil_keep_where_zero()),
{
    reveal_with_fuel(run, 4);
    reveal_with_fuel(writes_no_pixels, 4);
    assert(stroke_fringe_head(u) =~= seq![
        paint_uniforms(u, PaintWidth::StrokeThickness, StrokeThreshold::Disabled),
        stencil_func(StencilFunction::Equal),
        stencil_op(StencilAction::Keep, StencilAction::Keep),
    ]);
}

pub(crate) proof fn lemma_stroke_clear_tail_run(s: GlState)
    ensures
        writes_no_pixels(stroke_clear_head()),
        writes_no_pixels(stroke_tail()),
        run(s, stroke_clear_head()) == (GlState {
            color_write: false,
            ..stencil_setup(
                s,
                StencilFunction::Always,
                ops_of(StencilAction::Zero, StencilAction::Zero),
                ops_of(StencilAction::Zero, StencilAction::Zero),
            )
        }),
        run(s, stroke_tail()) == (GlState { color_write: true, stencil_test: false, ..s }),
{
    reveal_with_fuel(run, 4);
    reveal_with_fuel(writes_no_pixels, 4);
}

pub(crate) proof fn lemma_stencil_fill_head_run(s: GlState, u: UniversalPipeline)
    ensures
        writes_no_pixels(stencil_fill_head(u)),
        run(s, stencil_fill_head(u)) == (GlState {
            stencil_test: true,
            stencil_write_mask: 0xff,
            color_write: false,
            cull_face: false,
            ..stencil_setup(
                s,
                StencilFunction::Always,
                ops_of(StencilAction::Keep, StencilAction::IncrWrap),
                ops_of(StencilAction::Keep, StencilAction::DecrWrap),
            )
        }),
{
    reveal_with_fuel(run, 11);
    reveal_with_fuel(writes_no_pixels, 11);
}

pub(crate) proof fn lemma_stencil_fill_cover_run(s: GlState, u: UniversalPipeline)
    ensures
        writes_no_pixels(stencil_fill_cover(u)),
        run(s, stencil_fill_cover(u)) == (GlState { cull_face: true, cull_mode: Face::Back, color_write: true, ..s }),
{
    reveal_with_fuel(run, 5);
    reveal_with_fuel(writes_no_pixels, 5);
}

/// The commands of the last step of a stencil fill before and after the
/// bounding quad.
pub(crate) proof fn lemma_stencil_fill_tail_run(s: GlState, u: UniversalPipeline)
    ensures
        ({
            let before = seq![
                GlCommand::Disable(GlCapability::CullFace),
                stencil_func(StencilFunction::NotEqual),
                stencil_op(StencilAction::Zero, StencilAction::Zero),
            ];
            let after = seq![GlCommand::Disable(GlCapability::StencilTest)];
            &&& stencil_fill_tail(u) == before + seq![fill_bounds_draw(u)] + after
            &&& writes_no_pixels(before)
            &&& writes_no_pixels(after)
            &&& run(s, before) == (GlState {
                cull_face: false,
                ..stencil_setup(
                    s,
                    StencilFunction::NotEqual,
                    ops_of(StencilAction::Zero, StencilAction::Zero),
                    ops_of(StencilAction::Zero, StencilAction::Zero),
                )
            })
        }),
        run(s, stencil_fill_tail(u)) == (GlState {
            cull_face: false,
            stencil_test: false,
            ..stencil_setup(
                s,
                StencilFunction::NotEqual,
                ops_of(StencilAction::Zero, StencilAction::Zero),
                ops_of(StencilAction::Zero, StencilAction::Zero),
            )
        }),
        draws_use_stencil(s, stencil_fill_tail(u)) == s.stencil_test,
        fills_reach_only_stencil(s, stencil_fill_tail(u)),
{
    reveal_with_fuel(run, 6);
    reveal_with_fuel(writes_no_pixels, 6);
    reveal_with_fuel(draws_use_stencil, 6);
    reveal_with_fuel(fills_reach_only_stencil, 6);
    assert(stencil_fill_tail(u) =~= seq![
        GlCommand::Disable(GlCapability::CullFace),
        stencil_func(StencilFunction::NotEqual),
        stencil_op(StencilAction::Zero, StencilAction::Zero),
    ] + seq![fill_bounds_draw(u)] + seq![GlCommand::Disable(GlCapability::StencilTest)]);
}

/// Law: a stroke pass leaves the target's framebuffer bound with the
/// viewport at its size, the stencil test off and color writes on, whatever
/// the state it started from; it leaves blending, face culling, texturing
/// and the bound texture and its filter as they were, and draws every stroke
/// with the stencil test on.
pub proof fn lemma_stroke_pass_restores_state(
    s: GlState,
    t: GlSurface,
    u: UniversalPipeline,
    paths: Seq<PathInfo>,
    antialiasing: bool,
)
    ensures
        ({
            let e = run(s, target_commands(t) + stroke_pass(u, paths, antialiasing));
            &&& e.framebuffer == t.framebuffer_id
            &&& e.viewport == (t.width, t.height)
            &&& !e.stencil_test
            &&& e.color_write
            &&& e.blend == s.blend
            &&& e.cull_face == s.cull_face
            &&& e.texture_2d == s.texture_2d
            &&& e.bound_texture == s.bound_texture
            &&& e.texture_filter == s.texture_filter
        }),
        draws_use_stencil(s, target_commands(t) + stroke_pass(u, paths, antialiasing)),
{
    let draws = stroke_draws(u, paths);
    let n = paths.len() as int;
    let head = stroke_head(u, antialiasing);
    let aa_head = stroke_fringe_head(u);
    let aa_part = if antialiasing { aa_head + draws } else { Seq::empty() };
    let clear_head = stroke_clear_head();
    let tail = stroke_tail();
    let all = target_commands(t) + (head + draws + aa_part + clear_head + draws + tail);
    assert(target_commands(t) + stroke_pass(u, paths, antialiasing) == all);

    lemma_target_neutral(s, t);
    let s0 = run(s, target_commands(t));
    lemma_stroke_head_run(s0, u, antialiasing);
    lemma_writes_no_pixels(s0, head);
    let s1 = run(s0, head);
    lemma_path_draws_neutral(s1, paths, n, PathPart::Stroke, DrawMode::TriangleStrip, u.vbo, u.vao);
    lemma_keep_where_zero_run(s1, u);
    lemma_writes_no_pixels(s1, aa_head);
    lemma_path_draws_neutral(run(s1, aa_head), paths, n, PathPart::Stroke, DrawMode::TriangleStrip, u.vbo, u.vao);
    lemma_run_append(s1, aa_head, draws);
    let s2 = run(s1, aa_part);
    assert(s2.stencil_test && s2.blend == s.blend && s2.cull_face == s.cull_face && s2.texture_2d == s.texture_2d
        && s2.framebuffer == t.framebuffer_id && s2.viewport == (t.width, t.height)
        && s2.bound_texture == s.bound_texture && s2.texture_filter == s.texture_filter);
    assert(draws_use_stencil(s1, aa_part));
    lemma_stroke_clear_tail_run(s2);
    lemma_writes_no_pixels(s2, clear_head);
    let s3 = run(s2, clear_head);
    lemma_path_draws_neutral(s3, paths, n, PathPart::Stroke, DrawMode::TriangleStrip, u.vbo, u.vao);
    lemma_stroke_clear_tail_run(s3);
    lemma_writes_no_pixels(s3, tail);

    lemma_run_append(s, target_commands(t), head + draws + aa_part + clear_head + draws + tail);
    lemma_run_append(s0, head + draws + aa_part + clear_head + draws, tail);
    lemma_run_append(s0, head + draws + aa_part + clear_head, draws);
    lemma_run_append(s0, head + draws + aa_part, clear_head);
    lemma_run_append(s0, head + draws, aa_part);
    lemma_run_append(s0, head, draws);
}

/// Law: a fill through the stencil buffer leaves the stencil test off, color
/// writes on and face culling off, leaves blending and texturing as they
/// were, draws everything with the stencil test on, and draws the fills of
/// the paths only into the stencil buffer (with color writes off).
pub proof fn lemma_stencil_fill_restores_state(
    s: GlState,
    u: UniversalPipeline,
    paths: Seq<PathInfo>,
    antialiasing: bool,
)
    ensures
        ({
            let e = run(s, stencil_fill_pass(u, paths, antialiasing));
            &&& !e.stencil_test
            &&& e.color_write
            &&& !e.cull_face
            &&& e.blend == s.blend
            &&& e.texture_2d == s.texture_2d
            &&& e.framebuffer == s.framebuffer
            &&& e.viewport == s.viewport
            &&& e.bound_texture == s.bound_texture
            &&& e.texture_filter == s.texture_filter
        }),
        draws_use_stencil(s, stencil_fill_pass(u, paths, antialiasing)),
        fills_reach_only_stencil(s, stencil_fill_pass(u, paths, antialiasing)),
{
    let n = paths.len() as int;
    let head = stencil_fill_head(u);
    let fills = fill_draws(u, paths);
    let cover = stencil_fill_cover(u);
    let aa_head = stencil_keep_where_zero();
    let strokes = stroke_draws(u, paths);
    let aa_part = if antialiasing { aa_head + strokes } else { Seq::empty() };
    let tail = stencil_fill_tail(u);

    lemma_stencil_fill_head_run(s, u);
    lemma_writes_no_pixels(s, head);
    let s1 = run(s, head);
    lemma_path_draws_neutral(s1, paths, n, PathPart::Fill, DrawMode::TriangleFan, u.vbo, u.vao);
    lemma_stencil_fill_cover_run(s1, u);
    lemma_writes_no_pixels(s1, cover);
    let s2 = run(s1, cover);
    lemma_keep_where_zero_run(s2, u);
    lemma_writes_no_pixels(s2, aa_head);
    lemma_path_draws_neutral(run(s2, aa_head), paths, n, PathPart::Stroke, DrawMode::TriangleStrip, u.vbo, u.vao);
    lemma_run_append(s2, aa_head, strokes);
    let s3 = run(s2, aa_part);
    assert(s3.stencil_test && s3.color_write && s3.blend == s.blend && s3.texture_2d == s.texture_2d
        && s3.framebuffer == s.framebuffer && s3.viewport == s.viewport && s3.bound_texture == s.bound_texture
        && s3.texture_filter == s.texture_filter);
    assert(draws_use_stencil(s2, aa_part));
    assert(fills_reach_only_stencil(s2, aa_part));
    lemma_stencil_fill_tail_run(s3, u);

    lemma_run_append(s, head + fills + cover + aa_part, tail);
    lemma_run_append(s, head + fills + cover, aa_part);
    lemma_run_append(s, head + fills, cover);
    lemma_run_append(s, head, fills);
}

/// Law: filling a single convex path switches no state at all.
pub proof fn lemma_convex_fill_keeps_state(s: GlState, u: UniversalPipeline, p: PathInfo, antialiasing: bool)
    ensures
        run(s, convex_fill_pass(u, p, antialiasing)) == s,
{
    let head = convex_fill_head(u);
    let f = if has_part(p, PathPart::Fill) {
        seq![GlCommand::DrawPath { vbo: u.vbo, vao: u.vao, path: 0, part: PathPart::Fill, mode: DrawMode::TriangleFan }]
    } else {
        Seq::empty()
    };
    let k = if antialiasing && has_part(p, PathPart::Stroke) {
        seq![GlCommand::DrawPath { vbo: u.vbo, vao: u.vao, path: 0, part: PathPart::Stroke, mode: DrawMode::TriangleStrip }]
    } else {
        Seq::empty()
    };
    reveal_with_fuel(run, 4);
    lemma_run_append(s, head + f, k);
    lemma_run_append(s, head, f);
}

/// How many commands of `cmds` draw the `part` of a path.
pub open spec fn path_draw_count(cmds: Seq<GlCommand>, part: PathPart) -> nat
    decreases cmds.len(),
{
    if cmds.len() == 0 {
        0
    } else {
        (if cmds[0] matches GlCommand::DrawPath { part: p, .. } && p == part { 1nat } else { 0nat })
            + path_draw_count(cmds.drop_first(), part)
    }
}

/// How many of the first `n` paths have vertices for `part`.
pub open spec fn paths_with_part(paths: Seq<PathInfo>, n: int, part: PathPart) -> nat
    decreases n,
{
    if n <= 0 {
        0
    } else {
        paths_with_part(paths, n - 1, part) + if has_part(paths[n - 1], part) { 1nat } else { 0nat }
    }
}

pub(crate) proof fn lemma_count_append(a: Seq<GlCommand>, b: Seq<GlCommand>, part: PathPart)
    ensures
        path_draw_count(a + b, part) == path_draw_count(a, part) + path_draw_count(b, part),
    decreases a.len(),
{
    if a.len() == 0 {
        assert(a + b =~= b);
    } else {
        assert((a + b).drop_first() =~= a.drop_first() + b);
        assert((a + b)[0] == a[0]);
        lemma_count_append(a.drop_first(), b, part);
    }
}

pub(crate) proof fn lemma_count_path_draws(
    paths: Seq<PathInfo>,
    n: int,
    part: PathPart,
    other: PathPart,
    mode: DrawMode,
    vbo: u32,
    vao: u32,
)
    requires
        other != part,
    ensures
        path_draw_count(path_draws(paths, n, part, mode, vbo, vao), part) == paths_with_part(paths, n, part),
        path_draw_count(path_draws(paths, n, part, mode, vbo, vao), other) == 0,
    decreases n,
{
    if n > 0 {
        let prev = path_draws(paths, n - 1, part, mode, vbo, vao);
        let last = if has_part(paths[n - 1], part) {
            seq![GlCommand::DrawPath { vbo, vao, path: (n - 1) as usize, part, mode }]
        } else {
            Seq::empty()
        };
        lemma_count_path_draws(paths, n - 1, part, other, mode, vbo, vao);
        lemma_count_append(prev, last, part);
        lemma_count_append(prev, last, other);
        reveal_with_fuel(path_draw_count, 2);
    }
}

/// Law: a stroke pass draws the stroke of every path that has one twice
/// (the stroke and the stencil clearing), three times with anti-aliasing
/// (the fringe in between), never draws a path without a stroke, and never
/// draws a fill.
pub proof fn lemma_stroke_pass_draw_counts(t: GlSurface, u: UniversalPipeline, paths: Seq<PathInfo>, antialiasing: bool)
    ensures
        path_draw_count(target_commands(t) + stroke_pass(u, paths, antialiasing), PathPart::Stroke) == (if antialiasing {
            3nat
        } else {
            2nat
        }) * paths_with_part(paths, paths.len() as int, PathPart::Stroke),
        path_draw_count(target_commands(t) + stroke_pass(u, paths, antialiasing), PathPart::Fill) == 0,
{
    let n = paths.len() as int;
    let draws = stroke_draws(u, paths);
    let k = paths_with_part(paths, n, PathPart::Stroke);
    let head = stroke_head(u, antialiasing);
    let aa_head = stroke_fringe_head(u);
    let aa_part = if antialiasing { aa_head + draws } else { Seq::empty() };
    let clear_head = stroke_clear_head();
    let tail = stroke_tail();
    let pass = head + draws + aa_part + clear_head + draws + tail;
    assert(stroke_pass(u, paths, antialiasing) =~= pass);
    lemma_count_path_draws(paths, n, PathPart::Stroke, PathPart::Fill, DrawMode::TriangleStrip, u.vbo, u.vao);
    reveal_with_fuel(path_draw_count, 8);
    assert forall|part: PathPart| #![auto] path_draw_count(target_commands(t), part) == 0
        && path_draw_count(head, part) == 0 && path_draw_count(aa_head, part) == 0 && path_draw_count(
        clear_head,
        part,
    ) == 0 && path_draw_count(tail, part) == 0 by {}
    assert forall|part: PathPart| #![auto]
        path_draw_count(target_commands(t) + pass, part) == path_draw_count(draws, part) * if antialiasing {
            3nat
        } else {
            2nat
        } by {
        lemma_count_append(aa_head, draws, part);
        lemma_count_append(target_commands(t), pass, part);
        lemma_count_append(head + draws + aa_part + clear_head + draws, tail, part);
        lemma_count_append(head + draws + aa_part + clear_head, draws, part);
        lemma_count_append(head + draws + aa_part, clear_head, part);
        lemma_count_append(head + draws, aa_part, part);
        lemma_count_append(head, draws, part);
    }
    assert(path_draw_count(target_commands(t) + pass, PathPart::Stroke) == k * if antialiasing { 3nat } else { 2nat });
    assert(k * (if antialiasing { 3nat } else { 2nat }) == (if antialiasing { 3nat } else { 2nat }) * k) by (nonlinear_arith);
}

/// Law: a fill through the stencil buffer draws the fill of every path
/// that has one exactly once, and the stroke (the anti-aliased fringe) of
/// every path that has one once when anti-aliasing is on and never when it
/// is off.
pub proof fn lemma_stencil_fill_draw_counts(u: UniversalPipeline, paths: Seq<PathInfo>, antialiasing: bool)
    ensures
        path_draw_count(stencil_fill_pass(u, paths, antialiasing), PathPart::Fill) == paths_with_part(
            paths,
            paths.len() as int,
            PathPart::Fill,
        ),
        path_draw_count(stencil_fill_pass(u, paths, antialiasing), PathPart::Stroke) == if antialiasing {
            paths_with_part(paths, paths.len() as int, PathPart::Stroke)
        } else {
            0nat
        },
{
    let n = paths.len() as int;
    let head = stencil_fill_head(u);
    let fills = fill_draws(u, paths);
    let cover = stencil_fill_cover(u);
    let aa_head = stencil_keep_where_zero();
    let strokes = stroke_draws(u, paths);
    let aa_part = if antialiasing { aa_head + strokes } else { Seq::empty() };
    let tail = stencil_fill_tail(u);
    lemma_count_path_draws(paths, n, PathPart::Fill, PathPart::Stroke, DrawMode::TriangleFan, u.vbo, u.vao);
    lemma_count_path_draws(paths, n, PathPart::Stroke, PathPart::Fill, DrawMode::TriangleStrip, u.vbo, u.vao);
    reveal_with_fuel(path_draw_count, 11);
    assert forall|part: PathPart| #![auto]
        path_draw_count(stencil_fill_pass(u, paths, antialiasing), part) == path_draw_count(fills, part)
            + path_draw_count(aa_part, part) by {
        assert(path_draw_count(head, part) == 0);
        assert(path_draw_count(cover, part) == 0);
        assert(path_draw_count(tail, part) == 0);
        assert(path_draw_count(aa_head, part) == 0);
        lemma_count_append(aa_head, strokes, part);
        lemma_count_append(head + fills + cover + aa_part, tail, part);
        lemma_count_append(head + fills + cover, aa_part, part);
        lemma_count_append(head + fills, cover, part);
        lemma_count_append(head, fills, part);
    }
    lemma_count_append(aa_head, strokes, PathPart::Fill);
    lemma_count_append(aa_head, strokes, PathPart::Stroke);
    assert(path_draw_count(aa_part, PathPart::Fill) == 0);
    assert(path_draw_count(aa_part, PathPart::Stroke) == if antialiasing {
        paths_with_part(paths, n, PathPart::Stroke)
    } else {
        0nat
    });
    assert(path_draw_count(stencil_fill_pass(u, paths, antialiasing), PathPart::Fill) == path_draw_count(fills, PathPart::Fill)
        + path_draw_count(aa_part, PathPart::Fill));
    assert(path_draw_count(stencil_fill_pass(u, paths, antialiasing), PathPart::Stroke) == path_draw_count(fills, PathPart::Stroke)
        + path_draw_count(aa_part, PathPart::Stroke));
}

} // verus!
