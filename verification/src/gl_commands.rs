use vstd::prelude::*;

verus! {

/// An OpenGL capability switched by `glEnable` / `glDisable`.
#[derive(Clone, Copy, Debug, PartialEq, Eq, Structural)]
pub enum GlCapability {
    Blend,
    CullFace,
    StencilTest,
    Texture2D,
}

/// A stencil comparison function (`GL_ALWAYS`, `GL_EQUAL`, `GL_NOTEQUAL`).
#[derive(Clone, Copy, Debug, PartialEq, Eq, Structural)]
pub enum StencilFunction {
    Always,
    Equal,
    NotEqual,
}

/// A stencil buffer action (`GL_KEEP`, `GL_ZERO`, `GL_INCR`, `GL_INCR_WRAP`, `GL_DECR_WRAP`).
#[derive(Clone, Copy, Debug, PartialEq, Eq, Structural)]
pub enum StencilAction {
    Keep,
    Zero,
    Incr,
    IncrWrap,
    DecrWrap,
}

/// A polygon face (`GL_FRONT`, `GL_BACK`).
#[derive(Clone, Copy, Debug, PartialEq, Eq, Structural)]
pub enum Face {
    Front,
    Back,
}

/// How `glDrawArrays` assembles vertices.
#[derive(Clone, Copy, Debug, PartialEq, Eq, Structural)]
pub enum DrawMode {
    Triangles,
    TriangleStrip,
    TriangleFan,
    Lines,
}

/// Texture sampling for magnification and minification (`GL_LINEAR`, `GL_NEAREST`).
#[derive(Clone, Copy, Debug, PartialEq, Eq, Structural)]
pub enum TextureFilter {
    Linear,
    Nearest,
}

/// Which vertex array of a tessellated path is drawn.
#[derive(Clone, Copy, Debug, PartialEq, Eq, Structural)]
pub enum PathPart {
    Fill,
    Stroke,
}

/// The stroke threshold written into the fragment uniforms: the
/// anti-aliasing threshold `1 - 0.5 / 255`, or `-1` which disables it.
#[derive(Clone, Copy, Debug, PartialEq, Eq, Structural)]
pub enum StrokeThreshold {
    Antialiased,
    Disabled,
}

/// The width the paint's uniforms are computed with: the stroke thickness or
/// the fringe width.
#[derive(Clone, Copy, Debug, PartialEq, Eq, Structural)]
pub enum PaintWidth {
    StrokeThickness,
    FringeWidth,
}

/// Which fragment uniforms are uploaded: those converted from the paint, or
/// the plain ones used while only the stencil buffer is written.
#[derive(Clone, Copy, Debug, PartialEq, Eq, Structural)]
pub enum FragUniformsSource {
    Paint { width: PaintWidth, threshold: StrokeThreshold },
    StencilOnly,
}

/// One step of a render pass.  Most are single OpenGL calls; `SetTransform`,
/// `ApplyFragUniforms`, `ClearColor`, `DrawArrays`, `DrawPath` and
/// `DrawFillBounds` upload data that the caller of the pass holds (the
/// transform, the paint, the clear color, the vertices) before the call.
/// `ClearColor` clears the color, depth and stencil buffers.
#[derive(Clone, Copy, Debug, PartialEq, Eq, Structural)]
pub enum GlCommand {
    BindFramebuffer { framebuffer_id: u32 },
    Viewport { width: u16, height: u16 },
    ClearColor,
    Enable(GlCapability),
    Disable(GlCapability),
    StencilMask(u32),
    StencilFunc { func: StencilFunction, reference: i32, mask: u32 },
    StencilOp { stencil_fail: StencilAction, depth_fail: StencilAction, pass: StencilAction },
    StencilOpSeparate {
        face: Face,
        stencil_fail: StencilAction,
        depth_fail: StencilAction,
        pass: StencilAction,
    },
    ColorMask(bool),
    CullFace(Face),
    BindTexture { texture_id: u32 },
    SetTextureFilter(TextureFilter),
    UseProgram { program_id: u32 },
    SetTransform { location: i32 },
    SetFlippedY { location: i32, value: i32 },
    ApplyFragUniforms { buffer: u32, source: FragUniformsSource },
    DrawArrays { vbo: u32, vao: u32, mode: DrawMode, count: usize },
    DrawPath { vbo: u32, vao: u32, path: usize, part: PathPart, mode: DrawMode },
    DrawFillBounds { vbo: u32, vao: u32, mode: DrawMode },
}

/// The stencil actions of one face: on a failed stencil test, on a failed
/// depth test, and when both pass.
#[derive(Clone, Copy, Debug, PartialEq, Eq, Structural)]
pub struct StencilOps {
    pub stencil_fail: StencilAction,
    pub depth_fail: StencilAction,
    pub pass: StencilAction,
}

/// The part of the OpenGL state that render passes set: the bound
/// framebuffer and the viewport size, the bound texture and the filter last
/// set on it, the capabilities they switch on and off, color writes, the
/// culled face, and the stencil function, reference, masks and actions.
pub struct GlState {
    pub framebuffer: u32,
    pub viewport: (u16, u16),
    pub bound_texture: u32,
    pub texture_filter: TextureFilter,
    pub blend: bool,
    pub cull_face: bool,
    pub stencil_test: bool,
    pub texture_2d: bool,
    pub color_write: bool,
    pub cull_mode: Face,
    pub stencil_func: StencilFunction,
    pub stencil_ref: i32,
    pub stencil_value_mask: u32,
    pub stencil_write_mask: u32,
    pub front_stencil_ops: StencilOps,
    pub back_stencil_ops: StencilOps,
}

pub open spec fn set_capability(s: GlState, cap: GlCapability, on: bool) -> GlState {
    match cap {
        GlCapability::Blend => GlState { blend: on, ..s },
        GlCapability::CullFace => GlState { cull_face: on, ..s },
        GlCapability::StencilTest => GlState { stencil_test: on, ..s },
        GlCapability::Texture2D => GlState { texture_2d: on, ..s },
    }
}

/// The state after one command.
pub open spec fn step(s: GlState, c: GlCommand) -> GlState {
    match c {
        GlCommand::BindFramebuffer { framebuffer_id } => GlState { framebuffer: framebuffer_id, ..s },
        GlCommand::Viewport { width, height } => GlState { viewport: (width, height), ..s },
        GlCommand::BindTexture { texture_id } => GlState { bound_texture: texture_id, ..s },
        GlCommand::SetTextureFilter(filter) => GlState { texture_filter: filter, ..s },
        GlCommand::Enable(cap) => set_capability(s, cap, true),
        GlCommand::Disable(cap) => set_capability(s, cap, false),
        GlCommand::ColorMask(on) => GlState { color_write: on, ..s },
        GlCommand::CullFace(face) => GlState { cull_mode: face, ..s },
        GlCommand::StencilMask(mask) => GlState { stencil_write_mask: mask, ..s },
        GlCommand::StencilFunc { func, reference, mask } => GlState {
            stencil_func: func,
            stencil_ref: reference,
            stencil_value_mask: mask,
            ..s
        },
        GlCommand::StencilOp { stencil_fail, depth_fail, pass } => {
            let ops = StencilOps { stencil_fail, depth_fail, pass };
            GlState { front_stencil_ops: ops, back_stencil_ops: ops, ..s }
        },
        GlCommand::StencilOpSeparate { face, stencil_fail, depth_fail, pass } => {
            let ops = StencilOps { stencil_fail, depth_fail, pass };
            match face {
                Face::Front => GlState { front_stencil_ops: ops, ..s },
                Face::Back => GlState { back_stencil_ops: ops, ..s },
            }
        },
        _ => s,
    }
}

/// The state after a sequence of commands.
pub open spec fn run(s: GlState, cmds: Seq<GlCommand>) -> GlState
    decreases cmds.len(),
{
    if cmds.len() == 0 {
        s
    } else {
        run(step(s, cmds[0]), cmds.drop_first())
    }
}

pub open spec fn is_draw(c: GlCommand) -> bool {
    ||| c is DrawArrays
    ||| c is DrawPath
    ||| c is DrawFillBounds
}

/// Whether a command writes pixels: a draw, or a clear of the buffers.
pub open spec fn writes_pixels(c: GlCommand) -> bool {
    is_draw(c) || c is ClearColor
}

/// No command of `cmds` writes pixels: they only set state.
pub open spec fn writes_no_pixels(cmds: Seq<GlCommand>) -> bool
    decreases cmds.len(),
{
    cmds.len() == 0 || (!writes_pixels(cmds[0]) && writes_no_pixels(cmds.drop_first()))
}

/// Every draw command of `cmds`, run from state `s`, runs with the stencil
/// test enabled.
pub open spec fn draws_use_stencil(s: GlState, cmds: Seq<GlCommand>) -> bool
    decreases cmds.len(),
{
    if cmds.len() == 0 {
        true
    } else {
        (is_draw(cmds[0]) ==> s.stencil_test) && draws_use_stencil(step(s, cmds[0]), cmds.drop_first())
    }
}

/// Every command of `cmds` that draws the fill of a path, run from state
/// `s`, runs with color writes disabled: fills reach only the stencil buffer.
pub open spec fn fills_reach_only_stencil(s: GlState, cmds: Seq<GlCommand>) -> bool
    decreases cmds.len(),
{
    if cmds.len() == 0 {
        true
    } else {
        (cmds[0] matches GlCommand::DrawPath { part: PathPart::Fill, .. } ==> !s.color_write
            && s.stencil_test) && fills_reach_only_stencil(step(s, cmds[0]), cmds.drop_first())
    }
}

pub proof fn lemma_run_append(s: GlState, a: Seq<GlCommand>, b: Seq<GlCommand>)
    ensures
        run(s, a + b) == run(run(s, a), b),
        draws_use_stencil(s, a + b) == (draws_use_stencil(s, a) && draws_use_stencil(run(s, a), b)),
        fills_reach_only_stencil(s, a + b) == (fills_reach_only_stencil(s, a)
            && fills_reach_only_stencil(run(s, a), b)),
    decreases a.len(),
{
    if a.len() == 0 {
        assert(a + b =~= b);
    } else {
        assert((a + b).drop_first() =~= a.drop_first() + b);
        assert((a + b)[0] == a[0]);
        lemma_run_append(step(s, a[0]), a.drop_first(), b);
    }
}

pub proof fn lemma_writes_no_pixels(s: GlState, cmds: Seq<GlCommand>)
    requires
        writes_no_pixels(cmds),
    ensures
        draws_use_stencil(s, cmds),
        fills_reach_only_stencil(s, cmds),
    decreases cmds.len(),
{
    if cmds.len() > 0 {
        lemma_writes_no_pixels(step(s, cmds[0]), cmds.drop_first());
    }
}

/// A draw command together with the state it runs in and the fragment
/// uniforms uploaded last before it.
pub struct DrawContext {
    pub state: GlState,
    pub uniforms: Option<FragUniformsSource>,
    pub command: GlCommand,
}

/// The fragment uniforms in force after `c`, given those in force before.
pub open spec fn uploaded_after(last: Option<FragUniformsSource>, c: GlCommand) -> Option<FragUniformsSource> {
    match c {
        GlCommand::ApplyFragUniforms { source, .. } => Some(source),
        _ => last,
    }
}

/// The fragment uniforms in force after `cmds`.
pub open spec fn last_upload(last: Option<FragUniformsSource>, cmds: Seq<GlCommand>) -> Option<FragUniformsSource>
    decreases cmds.len(),
{
    if cmds.len() == 0 {
        last
    } else {
        last_upload(uploaded_after(last, cmds[0]), cmds.drop_first())
    }
}

/// Each draw command of `cmds`, in order, with the state it runs in and the
/// fragment uniforms in force when it runs, starting from state `s` and
/// uniforms `last`.
pub open spec fn draw_contexts(s: GlState, last: Option<FragUniformsSource>, cmds: Seq<GlCommand>) -> Seq<DrawContext>
    decreases cmds.len(),
{
    if cmds.len() == 0 {
        Seq::empty()
    } else {
        (if is_draw(cmds[0]) {
            seq![DrawContext { state: s, uniforms: last, command: cmds[0] }]
        } else {
            Seq::empty()
        }) + draw_contexts(step(s, cmds[0]), uploaded_after(last, cmds[0]), cmds.drop_first())
    }
}

pub proof fn lemma_draw_contexts_append(
    s: GlState,
    last: Option<FragUniformsSource>,
    a: Seq<GlCommand>,
    b: Seq<GlCommand>,
)
    ensures
        draw_contexts(s, last, a + b) == draw_contexts(s, last, a) + draw_contexts(
            run(s, a),
            last_upload(last, a),
            b,
        ),
        last_upload(last, a + b) == last_upload(last_upload(last, a), b),
    decreases a.len(),
{
    if a.len() == 0 {
        assert(a + b =~= b);
        assert(draw_contexts(s, last, a) =~= Seq::<DrawContext>::empty());
        assert(draw_contexts(s, last, a + b) =~= draw_contexts(s, last, a) + draw_contexts(s, last, b));
    } else {
        assert((a + b).drop_first() =~= a.drop_first() + b);
        assert((a + b)[0] == a[0]);
        lemma_draw_contexts_append(step(s, a[0]), uploaded_after(last, a[0]), a.drop_first(), b);
        let here = if is_draw(a[0]) {
            seq![DrawContext { state: s, uniforms: last, command: a[0] }]
        } else {
            Seq::<DrawContext>::empty()
        };
        assert(draw_contexts(s, last, a + b) =~= here + draw_contexts(
            step(s, a[0]),
            uploaded_after(last, a[0]),
            a.drop_first() + b,
        ));
    }
}

/// Commands that draw nothing contribute no draw context.
pub proof fn lemma_no_draw_contexts(s: GlState, last: Option<FragUniformsSource>, cmds: Seq<GlCommand>)
    requires
        writes_no_pixels(cmds),
    ensures
        draw_contexts(s, last, cmds) == Seq::<DrawContext>::empty(),
    decreases cmds.len(),
{
    if cmds.len() > 0 {
        lemma_no_draw_contexts(step(s, cmds[0]), uploaded_after(last, cmds[0]), cmds.drop_first());
        assert(draw_contexts(s, last, cmds) =~= Seq::<DrawContext>::empty());
    }
}

} // verus!
