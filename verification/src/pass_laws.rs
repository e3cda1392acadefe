//! What the render passes upload and bind for their draws, and how often
//! they draw each path, stated over every input.

use vstd::prelude::*;

use crate::gl_commands::{
    draw_contexts, lemma_draw_contexts_append, lemma_no_draw_contexts, lemma_run_append, last_upload, run,
    writes_no_pixels, DrawContext, DrawMode, FragUniformsSource, GlCapability, GlCommand, GlState, PaintWidth,
    PathPart, StencilAction, StencilFunction, StrokeThreshold, TextureFilter,
};
use crate::gl_context::{
    lemma_count_append, lemma_stencil_fill_draw_counts, path_draw_count, paths_with_part,
    convex_fill_head, convex_fill_pass, fill_bounds_draw, fill_draws, fill_pass, is_convex_fill,
    lemma_convex_fill_keeps_state, lemma_stencil_fill_cover_run, lemma_stencil_fill_head_run,
    lemma_stencil_fill_tail_run, lemma_texture_binding_run, paint_uniforms, stencil_fill_cover, stencil_fill_head,
    stencil_fill_pass, stencil_fill_tail, stencil_keep_where_zero, texture_binding, has_part, lemma_keep_where_zero_run, lemma_path_draws_neutral, lemma_stroke_clear_tail_run,
    lemma_stroke_head_run, lemma_target_neutral, path_draws, stencil_func, stencil_op, stroke_clear_head,
    stroke_draws, stroke_fringe_head, stroke_head, stroke_pass, stroke_tail, target_commands, GlSurface, PathInfo,
};
use crate::gl_context::{textured_commands, textured_y8_commands};
use crate::pipelines::{TexturedPipeline, TexturedY8Pipeline, UniversalPipeline};
use crate::texture::GlTexture;

verus! {

/// Every draw context of `ctxs` satisfies `p`.
pub open spec fn all_contexts(ctxs: Seq<DrawContext>, p: spec_fn(DrawContext) -> bool) -> bool {
    forall|i: int| 0 <= i < ctxs.len() ==> p(#[trigger] ctxs[i])
}

proof fn lemma_all_concat(a: Seq<DrawContext>, b: Seq<DrawContext>, p: spec_fn(DrawContext) -> bool)
    requires
        all_contexts(a, p),
        all_contexts(b, p),
    ensures
        all_contexts(a + b, p),
{
    assert forall|i: int| 0 <= i < (a + b).len() implies p(#[trigger] (a + b)[i]) by {
        if i < a.len() {
            assert((a + b)[i] == a[i]);
        } else {
            assert((a + b)[i] == b[i - a.len()]);
        }
    }
}

/// The draws of the `part` of the first `n` paths all run in state `s` with
/// uniforms `last`, and upload nothing.
proof fn lemma_path_draw_contexts(
    s: GlState,
    last: Option<FragUniformsSource>,
    paths: Seq<PathInfo>,
    n: int,
    part: PathPart,
    mode: DrawMode,
    vbo: u32,
    vao: u32,
)
    ensures
        ({
            let ctxs = draw_contexts(s, last, path_draws(paths, n, part, mode, vbo, vao));
            forall|i: int|
                0 <= i < ctxs.len() ==> {
                    &&& (#[trigger] ctxs[i]).state == s
                    &&& ctxs[i].uniforms == last
                    &&& ctxs[i].command matches GlCommand::DrawPath { part: q, .. } && q == part
                }
        }),
        last_upload(last, path_draws(paths, n, part, mode, vbo, vao)) == last,
    decreases n,
{
    if n > 0 {
        let prev = path_draws(paths, n - 1, part, mode, vbo, vao);
        let c = GlCommand::DrawPath { vbo, vao, path: (n - 1) as usize, part, mode };
        let tail = if has_part(paths[n - 1], part) { seq![c] } else { Seq::empty() };
        assert(path_draws(paths, n, part, mode, vbo, vao) == prev + tail);
        lemma_path_draw_contexts(s, last, paths, n - 1, part, mode, vbo, vao);
        lemma_path_draws_neutral(s, paths, n - 1, part, mode, vbo, vao);
        lemma_draw_contexts_append(s, last, prev, tail);
        reveal_with_fuel(draw_contexts, 2);
        reveal_with_fuel(last_upload, 2);
        let a = draw_contexts(s, last, prev);
        let b = draw_contexts(s, last, tail);
        assert(b =~= if has_part(paths[n - 1], part) {
            seq![DrawContext { state: s, uniforms: last, command: c }]
        } else {
            Seq::<DrawContext>::empty()
        });
        let ctxs = a + b;
        assert forall|i: int| 0 <= i < ctxs.len() implies {
            &&& (#[trigger] ctxs[i]).state == s
            &&& ctxs[i].uniforms == last
            &&& ctxs[i].command matches GlCommand::DrawPath { part: q, .. } && q == part
        } by {
            if i < a.len() {
                assert(ctxs[i] == a[i]);
            } else {
                assert(ctxs[i] == b[i - a.len()]);
            }
        }
    }
}

proof fn lemma_stroke_uploads(last: Option<FragUniformsSource>, u: UniversalPipeline, antialiasing: bool)
    ensures
        last_upload(last, stroke_head(u, antialiasing)) == Some(
            FragUniformsSource::Paint {
                width: PaintWidth::StrokeThickness,
                threshold: if antialiasing { StrokeThreshold::Antialiased } else { StrokeThreshold::Disabled },
            },
        ),
        last_upload(last, stroke_fringe_head(u)) == Some(
            FragUniformsSource::Paint { width: PaintWidth::StrokeThickness, threshold: StrokeThreshold::Disabled },
        ),
{
    reveal_with_fuel(last_upload, 8);
    assert(stroke_fringe_head(u) =~= seq![
        paint_uniforms(u, PaintWidth::StrokeThickness, StrokeThreshold::Disabled),
        stencil_func(StencilFunction::Equal),
        stencil_op(StencilAction::Keep, StencilAction::Keep),
    ]);
}

proof fn lemma_fill_uploads(last: Option<FragUniformsSource>, u: UniversalPipeline)
    ensures
        last_upload(last, stencil_fill_head(u)) == Some(FragUniformsSource::StencilOnly),
        last_upload(last, stencil_fill_cover(u)) == fill_paint(),
        last_upload(last, stencil_keep_where_zero()) == last,
        last_upload(last, convex_fill_head(u)) == fill_paint(),
        last_upload(
            last,
            seq![
                GlCommand::Disable(GlCapability::CullFace),
                stencil_func(StencilFunction::NotEqual),
                stencil_op(StencilAction::Zero, StencilAction::Zero),
            ],
        ) == last,
{
    reveal_with_fuel(last_upload, 11);
}

proof fn lemma_binding_uploads(last: Option<FragUniformsSource>, t: GlSurface, texture_id: u32, filtering: bool)
    ensures
        last_upload(last, target_commands(t)) == last,
        last_upload(last, texture_binding(texture_id, filtering)) == last,
{
    reveal_with_fuel(last_upload, 4);
}

/// What a draw of a stroke pass runs with: while strokes are counted into
/// the stencil (the pass action increments) the stroke's paint at the
/// stroke thickness, with the anti-aliasing threshold exactly when
/// anti-aliasing is on; while the fringe is drawn (the stencil is kept) the
/// stroke's paint at the stroke thickness without threshold; while the
/// stencil is cleared (the pass action zeroes), color writes off.  Every
/// draw is a stroke of a path, made with the stencil test on.
pub open spec fn stroke_draw_ok(d: DrawContext, antialiasing: bool) -> bool {
    &&& d.state.stencil_test
    &&& d.command matches GlCommand::DrawPath { part: PathPart::Stroke, .. }
    &&& match d.state.front_stencil_ops.pass {
        StencilAction::Incr => d.uniforms == Some(
            FragUniformsSource::Paint {
                width: PaintWidth::StrokeThickness,
                threshold: if antialiasing { StrokeThreshold::Antialiased } else { StrokeThreshold::Disabled },
            },
        ),
        StencilAction::Keep => d.uniforms == Some(
            FragUniformsSource::Paint { width: PaintWidth::StrokeThickness, threshold: StrokeThreshold::Disabled },
        ),
        StencilAction::Zero => !d.state.color_write,
        _ => false,
    }
}

proof fn lemma_stroke_pass_uniforms_from(
    s0: GlState,
    last: Option<FragUniformsSource>,
    u: UniversalPipeline,
    paths: Seq<PathInfo>,
    antialiasing: bool,
)
    ensures
        all_contexts(
            draw_contexts(s0, last, stroke_pass(u, paths, antialiasing)),
            |d: DrawContext| stroke_draw_ok(d, antialiasing),
        ),
{
    let n = paths.len() as int;
    let draws = stroke_draws(u, paths);
    let head = stroke_head(u, antialiasing);
    let aa_head = stroke_fringe_head(u);
    let aa_part = if antialiasing { aa_head + draws } else { Seq::empty() };
    let clear_head = stroke_clear_head();
    let tail = stroke_tail();
    assert(stroke_pass(u, paths, antialiasing) == head + draws + aa_part + clear_head + draws + tail);
    let p = |d: DrawContext| stroke_draw_ok(d, antialiasing);
    lemma_stroke_uploads(last, u, antialiasing);

    lemma_stroke_head_run(s0, u, antialiasing);
    lemma_no_draw_contexts(s0, last, head);
    let l1 = last_upload(last, head);
    assert(l1 == Some(
        FragUniformsSource::Paint {
            width: PaintWidth::StrokeThickness,
            threshold: if antialiasing { StrokeThreshold::Antialiased } else { StrokeThreshold::Disabled },
        },
    ));
    let s1 = run(s0, head);
    lemma_path_draw_contexts(s1, l1, paths, n, PathPart::Stroke, DrawMode::TriangleStrip, u.vbo, u.vao);
    lemma_path_draws_neutral(s1, paths, n, PathPart::Stroke, DrawMode::TriangleStrip, u.vbo, u.vao);
    let c1 = draw_contexts(s1, l1, draws);
    assert(all_contexts(c1, p));

    lemma_keep_where_zero_run(s1, u);
    lemma_no_draw_contexts(s1, l1, aa_head);
    lemma_stroke_uploads(l1, u, antialiasing);
    let l2 = last_upload(l1, aa_head);
    assert(l2 == Some(
        FragUniformsSource::Paint { width: PaintWidth::StrokeThickness, threshold: StrokeThreshold::Disabled },
    ));
    let s1a = run(s1, aa_head);
    lemma_path_draw_contexts(s1a, l2, paths, n, PathPart::Stroke, DrawMode::TriangleStrip, u.vbo, u.vao);
    lemma_path_draws_neutral(s1a, paths, n, PathPart::Stroke, DrawMode::TriangleStrip, u.vbo, u.vao);
    lemma_draw_contexts_append(s1, l1, aa_head, draws);
    lemma_run_append(s1, aa_head, draws);
    let c2 = draw_contexts(s1, l1, aa_part);
    if antialiasing {
        assert(all_contexts(draw_contexts(s1a, l2, draws), p));
        assert(c2 =~= Seq::<DrawContext>::empty() + draw_contexts(s1a, l2, draws));
    } else {
        assert(c2 =~= Seq::<DrawContext>::empty());
    }
    assert(all_contexts(c2, p));
    let s2 = run(s1, aa_part);
    let l3 = last_upload(l1, aa_part);

    lemma_stroke_clear_tail_run(s2);
    lemma_no_draw_contexts(s2, l3, clear_head);
    let s3 = run(s2, clear_head);
    let l4 = last_upload(l3, clear_head);
    lemma_path_draw_contexts(s3, l4, paths, n, PathPart::Stroke, DrawMode::TriangleStrip, u.vbo, u.vao);
    lemma_path_draws_neutral(s3, paths, n, PathPart::Stroke, DrawMode::TriangleStrip, u.vbo, u.vao);
    let c3 = draw_contexts(s3, l4, draws);
    assert(all_contexts(c3, p));
    lemma_stroke_clear_tail_run(s3);
    lemma_no_draw_contexts(s3, last_upload(l4, draws), tail);

    lemma_draw_contexts_append(s0, last, head + draws + aa_part + clear_head + draws, tail);
    lemma_draw_contexts_append(s0, last, head + draws + aa_part + clear_head, draws);
    lemma_draw_contexts_append(s0, last, head + draws + aa_part, clear_head);
    lemma_draw_contexts_append(s0, last, head + draws, aa_part);
    lemma_draw_contexts_append(s0, last, head, draws);
    lemma_run_append(s0, head + draws + aa_part + clear_head, draws);
    lemma_run_append(s0, head + draws + aa_part, clear_head);
    lemma_run_append(s0, head + draws, aa_part);
    lemma_run_append(s0, head, draws);
    lemma_all_concat(c1, c2, p);
    lemma_all_concat(c1 + c2, c3, p);
    assert(draw_contexts(s0, last, head + draws + aa_part + clear_head + draws + tail) =~= c1 + c2 + c3);
}

/// Law: every draw of a stroke pass, whatever the state and the uniforms
/// it starts from, runs with the stroke's paint while it draws color: at the
/// stroke thickness, with the anti-aliasing threshold in the counting pass
/// exactly when anti-aliasing is on and without it in the fringe pass; the
/// draws that clear the stencil run with color writes off.
pub proof fn lemma_stroke_pass_uniforms(
    s: GlState,
    last: Option<FragUniformsSource>,
    t: GlSurface,
    u: UniversalPipeline,
    paths: Seq<PathInfo>,
    antialiasing: bool,
)
    ensures
        ({
            let ctxs = draw_contexts(s, last, target_commands(t) + stroke_pass(u, paths, antialiasing));
            forall|i: int| 0 <= i < ctxs.len() ==> stroke_draw_ok(#[trigger] ctxs[i], antialiasing)
        }),
{
    let target = target_commands(t);
    lemma_target_neutral(s, t);
    lemma_binding_uploads(last, t, 0, false);
    lemma_no_draw_contexts(s, last, target);
    lemma_stroke_pass_uniforms_from(run(s, target), last, u, paths, antialiasing);
    lemma_draw_contexts_append(s, last, target, stroke_pass(u, paths, antialiasing));
    let ctxs = draw_contexts(s, last, target + stroke_pass(u, paths, antialiasing));
    assert(ctxs =~= draw_contexts(run(s, target), last, stroke_pass(u, paths, antialiasing)));
    assert(all_contexts(ctxs, |d: DrawContext| stroke_draw_ok(d, antialiasing)));
}

/// The paint's uniforms as the fill uploads them: at the fringe width,
/// without stroke threshold.
pub open spec fn fill_paint() -> Option<FragUniformsSource> {
    Some(FragUniformsSource::Paint { width: PaintWidth::FringeWidth, threshold: StrokeThreshold::Disabled })
}

/// What a draw of a fill runs with.  In a fill through the stencil buffer
/// the fills of the paths are counted with color writes off, the stencil
/// test on and the plain stencil-only uniforms; every other draw (the
/// anti-aliased fringe and the bounding quad that covers the counted
/// pixels) runs with color writes on and the paint's uniforms.  In a convex
/// fill every draw runs with the paint's uniforms.
pub open spec fn fill_draw_ok(d: DrawContext, convex: bool) -> bool {
    if !convex && d.command matches GlCommand::DrawPath { part: PathPart::Fill, .. } {
        &&& !d.state.color_write
        &&& d.state.stencil_test
        &&& d.uniforms == Some(FragUniformsSource::StencilOnly)
    } else {
        &&& d.uniforms == fill_paint()
        &&& !convex ==> d.state.color_write && d.state.stencil_test
    }
}

#[verifier::rlimit(60)]
proof fn lemma_stencil_fill_pass_uniforms(
    s: GlState,
    last: Option<FragUniformsSource>,
    u: UniversalPipeline,
    paths: Seq<PathInfo>,
    antialiasing: bool,
)
    ensures
        all_contexts(
            draw_contexts(s, last, stencil_fill_pass(u, paths, antialiasing)),
            |d: DrawContext| fill_draw_ok(d, false),
        ),
{
    let n = paths.len() as int;
    let head = stencil_fill_head(u);
    let fills = fill_draws(u, paths);
    let cover = stencil_fill_cover(u);
    let aa_head = stencil_keep_where_zero();
    let strokes = stroke_draws(u, paths);
    let aa_part = if antialiasing { aa_head + strokes } else { Seq::empty() };
    let tail = stencil_fill_tail(u);
    let p = |d: DrawContext| fill_draw_ok(d, false);
    assert(stencil_fill_pass(u, paths, antialiasing) == head + fills + cover + aa_part + tail);
    lemma_fill_uploads(last, u);

    lemma_stencil_fill_head_run(s, u);
    lemma_no_draw_contexts(s, last, head);
    let l1 = last_upload(last, head);
    assert(l1 == Some(FragUniformsSource::StencilOnly));
    let s1 = run(s, head);
    lemma_path_draw_contexts(s1, l1, paths, n, PathPart::Fill, DrawMode::TriangleFan, u.vbo, u.vao);
    lemma_path_draws_neutral(s1, paths, n, PathPart::Fill, DrawMode::TriangleFan, u.vbo, u.vao);
    let c1 = draw_contexts(s1, l1, fills);
    assert(all_contexts(c1, p));

    lemma_stencil_fill_cover_run(s1, u);
    lemma_no_draw_contexts(s1, l1, cover);
    lemma_fill_uploads(l1, u);
    let l2 = last_upload(l1, cover);
    assert(l2 == fill_paint());
    let s2 = run(s1, cover);
    lemma_keep_where_zero_run(s2, u);
    lemma_no_draw_contexts(s2, l2, aa_head);
    lemma_fill_uploads(l2, u);
    let l2a = last_upload(l2, aa_head);
    assert(l2a == l2);
    let s2a = run(s2, aa_head);
    lemma_path_draw_contexts(s2a, l2a, paths, n, PathPart::Stroke, DrawMode::TriangleStrip, u.vbo, u.vao);
    lemma_path_draws_neutral(s2a, paths, n, PathPart::Stroke, DrawMode::TriangleStrip, u.vbo, u.vao);
    lemma_draw_contexts_append(s2, l2, aa_head, strokes);
    lemma_run_append(s2, aa_head, strokes);
    let c2 = draw_contexts(s2, l2, aa_part);
    if antialiasing {
        assert(all_contexts(draw_contexts(s2a, l2a, strokes), p));
        assert(c2 =~= Seq::<DrawContext>::empty() + draw_contexts(s2a, l2a, strokes));
    } else {
        assert(c2 =~= Seq::<DrawContext>::empty());
    }
    assert(all_contexts(c2, p));
    let s3 = run(s2, aa_part);
    lemma_path_draw_contexts(s2a, l2a, paths, n, PathPart::Stroke, DrawMode::TriangleStrip, u.vbo, u.vao);
    let l3 = last_upload(l2, aa_part);
    assert(l3 == fill_paint());
    lemma_fill_uploads(l3, u);
    assert(s3.color_write && s3.stencil_test);

    lemma_stencil_fill_tail_run(s3, u);
    let before = seq![
        GlCommand::Disable(GlCapability::CullFace),
        stencil_func(StencilFunction::NotEqual),
        stencil_op(StencilAction::Zero, StencilAction::Zero),
    ];
    let b = fill_bounds_draw(u);
    let after = seq![GlCommand::Disable(GlCapability::StencilTest)];
    lemma_no_draw_contexts(s3, l3, before);
    let s4 = run(s3, before);
    reveal_with_fuel(draw_contexts, 2);
    let cb = draw_contexts(s4, l3, seq![b]);
    assert(cb =~= seq![DrawContext { state: s4, uniforms: l3, command: b }]);
    assert(all_contexts(cb, p));
    lemma_no_draw_contexts(run(s4, seq![b]), last_upload(l3, seq![b]), after);
    lemma_draw_contexts_append(s3, l3, before + seq![b], after);
    lemma_draw_contexts_append(s3, l3, before, seq![b]);
    lemma_run_append(s3, before, seq![b]);
    let ct = draw_contexts(s3, l3, tail);
    assert(ct =~= cb);

    lemma_draw_contexts_append(s, last, head + fills + cover + aa_part, tail);
    lemma_draw_contexts_append(s, last, head + fills + cover, aa_part);
    lemma_draw_contexts_append(s, last, head + fills, cover);
    lemma_draw_contexts_append(s, last, head, fills);
    lemma_run_append(s, head + fills + cover, aa_part);
    lemma_run_append(s, head + fills, cover);
    lemma_run_append(s, head, fills);
    lemma_all_concat(c1, c2, p);
    lemma_all_concat(c1 + c2, ct, p);
    assert(draw_contexts(s, last, head + fills + cover + aa_part + tail) =~= c1 + c2 + ct);
}

proof fn lemma_convex_fill_pass_uniforms(
    s: GlState,
    last: Option<FragUniformsSource>,
    u: UniversalPipeline,
    p0: PathInfo,
    antialiasing: bool,
)
    ensures
        all_contexts(
            draw_contexts(s, last, convex_fill_pass(u, p0, antialiasing)),
            |d: DrawContext| fill_draw_ok(d, true),
        ),
{
    let head = convex_fill_head(u);
    let fc = GlCommand::DrawPath { vbo: u.vbo, vao: u.vao, path: 0, part: PathPart::Fill, mode: DrawMode::TriangleFan };
    let kc = GlCommand::DrawPath {
        vbo: u.vbo,
        vao: u.vao,
        path: 0,
        part: PathPart::Stroke,
        mode: DrawMode::TriangleStrip,
    };
    let f = if has_part(p0, PathPart::Fill) { seq![fc] } else { Seq::empty() };
    let k = if antialiasing && has_part(p0, PathPart::Stroke) { seq![kc] } else { Seq::empty() };
    let p = |d: DrawContext| fill_draw_ok(d, true);
    assert(convex_fill_pass(u, p0, antialiasing) == head + f + k);
    lemma_fill_uploads(last, u);
    reveal_with_fuel(last_upload, 2);
    reveal_with_fuel(run, 4);
    reveal_with_fuel(writes_no_pixels, 4);
    reveal_with_fuel(draw_contexts, 2);
    assert(writes_no_pixels(head));
    lemma_no_draw_contexts(s, last, head);
    let l = last_upload(last, head);
    assert(l == fill_paint());
    let sh = run(s, head);
    assert(all_contexts(draw_contexts(sh, l, f), p));
    assert(last_upload(l, f) == l);
    let sf = run(sh, f);
    assert(all_contexts(draw_contexts(sf, l, k), p));
    lemma_draw_contexts_append(s, last, head + f, k);
    lemma_draw_contexts_append(s, last, head, f);
    lemma_run_append(s, head, f);
    lemma_all_concat(draw_contexts(sh, l, f), draw_contexts(sf, l, k), p);
    assert(draw_contexts(s, last, head + f + k) =~= draw_contexts(sh, l, f) + draw_contexts(sf, l, k));
}

/// Law: every draw of a fill, whatever the state and the uniforms it starts
/// from, runs as `fill_draw_ok` says: a fill through the stencil buffer
/// counts the fills with color writes off and the stencil-only uniforms, and
/// draws everything else, the bounding quad included, with color writes on
/// and the paint's uniforms; a convex fill draws everything with the paint's
/// uniforms.
pub proof fn lemma_fill_pass_uniforms(
    s: GlState,
    last: Option<FragUniformsSource>,
    t: GlSurface,
    u: UniversalPipeline,
    paths: Seq<PathInfo>,
    antialiasing: bool,
    image: Option<u32>,
    filtering: bool,
)
    ensures
        ({
            let ctxs = draw_contexts(
                s,
                last,
                target_commands(t) + fill_pass(u, paths, antialiasing, image, filtering),
            );
            forall|i: int| 0 <= i < ctxs.len() ==> fill_draw_ok(#[trigger] ctxs[i], is_convex_fill(paths))
        }),
{
    let target = target_commands(t);
    let binding = match image {
        Some(id) => texture_binding(id, filtering),
        None => Seq::<GlCommand>::empty(),
    };
    let pass = if is_convex_fill(paths) {
        convex_fill_pass(u, paths[0], antialiasing)
    } else {
        stencil_fill_pass(u, paths, antialiasing)
    };
    assert(fill_pass(u, paths, antialiasing, image, filtering) == binding + pass);
    lemma_target_neutral(s, t);
    let s0 = run(s, target);
    lemma_no_draw_contexts(s, last, target);
    match image {
        Some(id) => {
            lemma_texture_binding_run(s0, id, filtering);
            lemma_binding_uploads(last, t, id, filtering);
        },
        None => {
            lemma_binding_uploads(last, t, 0, false);
            assert(writes_no_pixels(binding));
            assert(last_upload(last, binding) == last);
        },
    }
    lemma_no_draw_contexts(s0, last, binding);
    let sb = run(s0, binding);
    if is_convex_fill(paths) {
        lemma_convex_fill_pass_uniforms(sb, last, u, paths[0], antialiasing);
    } else {
        lemma_stencil_fill_pass_uniforms(sb, last, u, paths, antialiasing);
    }
    lemma_draw_contexts_append(s, last, target, binding + pass);
    lemma_draw_contexts_append(s0, last, binding, pass);
    let ctxs = draw_contexts(s, last, target + (binding + pass));
    assert(ctxs =~= draw_contexts(sb, last, pass));
    assert(all_contexts(ctxs, |d: DrawContext| fill_draw_ok(d, is_convex_fill(paths))));
}

/// Law: a fill draws the fill of every path that has one exactly once and
/// never a path without one, whichever way it goes (directly for a single
/// convex path, through the stencil buffer otherwise); it draws the stroke
/// (the anti-aliased fringe) of every path that has one once when
/// anti-aliasing is on, and none when it is off.
pub proof fn lemma_fill_draws_every_path_once(
    t: GlSurface,
    u: UniversalPipeline,
    paths: Seq<PathInfo>,
    antialiasing: bool,
    image: Option<u32>,
    filtering: bool,
)
    ensures
        path_draw_count(target_commands(t) + fill_pass(u, paths, antialiasing, image, filtering), PathPart::Fill)
            == paths_with_part(paths, paths.len() as int, PathPart::Fill),
        path_draw_count(target_commands(t) + fill_pass(u, paths, antialiasing, image, filtering), PathPart::Stroke)
            == if antialiasing {
            paths_with_part(paths, paths.len() as int, PathPart::Stroke)
        } else {
            0nat
        },
{
    let target = target_commands(t);
    let binding = match image {
        Some(id) => texture_binding(id, filtering),
        None => Seq::<GlCommand>::empty(),
    };
    let pass = if is_convex_fill(paths) {
        convex_fill_pass(u, paths[0], antialiasing)
    } else {
        stencil_fill_pass(u, paths, antialiasing)
    };
    assert(fill_pass(u, paths, antialiasing, image, filtering) == binding + pass);
    assert(target + (binding + pass) == target + binding + pass);
    reveal_with_fuel(path_draw_count, 4);
    assert forall|part: PathPart| #![auto] path_draw_count(target, part) == 0 && path_draw_count(binding, part) == 0 by {}
    if is_convex_fill(paths) {
        let p0 = paths[0];
        let head = convex_fill_head(u);
        let fc = GlCommand::DrawPath {
            vbo: u.vbo,
            vao: u.vao,
            path: 0,
            part: PathPart::Fill,
            mode: DrawMode::TriangleFan,
        };
        let kc = GlCommand::DrawPath {
            vbo: u.vbo,
            vao: u.vao,
            path: 0,
            part: PathPart::Stroke,
            mode: DrawMode::TriangleStrip,
        };
        let f = if has_part(p0, PathPart::Fill) { seq![fc] } else { Seq::empty() };
        let k = if antialiasing && has_part(p0, PathPart::Stroke) { seq![kc] } else { Seq::empty() };
        assert(pass == head + f + k);
        reveal_with_fuel(paths_with_part, 2);
        assert forall|part: PathPart| #![auto]
            path_draw_count(target + binding + pass, part) == path_draw_count(f, part) + path_draw_count(k, part) by {
            assert(path_draw_count(head, part) == 0);
            lemma_count_append(target, binding, part);
            lemma_count_append(target + binding, pass, part);
            lemma_count_append(head + f, k, part);
            lemma_count_append(head, f, part);
        }
    } else {
        lemma_stencil_fill_draw_counts(u, paths, antialiasing);
        assert forall|part: PathPart| #![auto]
            path_draw_count(target + binding + pass, part) == path_draw_count(pass, part) by {
            lemma_count_append(target, binding, part);
            lemma_count_append(target + binding, pass, part);
        }
    }
}

/// The commands of a textured draw, for a program with the given uniform
/// locations and buffers.
proof fn lemma_textured_shape(
    s: GlState,
    last: Option<FragUniformsSource>,
    t: GlSurface,
    program: u32,
    transform_location: i32,
    flipped_y_location: i32,
    vbo: u32,
    vao: u32,
    texture: GlTexture,
    filtering: bool,
    count: usize,
    rest: Seq<GlCommand>,
)
    requires
        rest == seq![
            GlCommand::UseProgram { program_id: program },
            GlCommand::SetTransform { location: transform_location },
            GlCommand::SetFlippedY {
                location: flipped_y_location,
                value: if texture.data.flipped_y { 1i32 } else { 0i32 },
            },
            GlCommand::DrawArrays { vbo, vao, mode: DrawMode::Triangles, count },
        ],
    ensures
        ({
            let cmds = target_commands(t) + texture_binding(texture.data.id, filtering) + rest;
            let ctxs = draw_contexts(s, last, cmds);
            &&& ctxs.len() == 1
            &&& ctxs[0].command == (GlCommand::DrawArrays { vbo, vao, mode: DrawMode::Triangles, count })
            &&& ctxs[0].state.framebuffer == t.framebuffer_id
            &&& ctxs[0].state.viewport == (t.width, t.height)
            &&& ctxs[0].state.texture_2d
            &&& ctxs[0].state.bound_texture == texture.data.id
            &&& ctxs[0].state.texture_filter == (if filtering { TextureFilter::Linear } else { TextureFilter::Nearest })
            &&& forall|i: int|
                0 <= i < cmds.len() && (#[trigger] cmds[i]) is SetFlippedY ==> cmds[i] == (GlCommand::SetFlippedY {
                    location: flipped_y_location,
                    value: if texture.data.flipped_y { 1i32 } else { 0i32 },
                })
            &&& exists|i: int| 0 <= i < cmds.len() && (#[trigger] cmds[i]) is SetFlippedY
        }),
{
    let flip = GlCommand::SetFlippedY {
        location: flipped_y_location,
        value: if texture.data.flipped_y { 1i32 } else { 0i32 },
    };
    let filter = if filtering { TextureFilter::Linear } else { TextureFilter::Nearest };
    let draw = GlCommand::DrawArrays { vbo, vao, mode: DrawMode::Triangles, count };
    let cmds = target_commands(t) + texture_binding(texture.data.id, filtering) + rest;
    let flat = seq![
        GlCommand::BindFramebuffer { framebuffer_id: t.framebuffer_id },
        GlCommand::Viewport { width: t.width, height: t.height },
        GlCommand::Enable(GlCapability::Texture2D),
        GlCommand::BindTexture { texture_id: texture.data.id },
        GlCommand::SetTextureFilter(filter),
        GlCommand::UseProgram { program_id: program },
        GlCommand::SetTransform { location: transform_location },
        flip,
        draw,
    ];
    assert(cmds =~= flat);
    reveal_with_fuel(draw_contexts, 10);
    let e = run(s, flat.subrange(0, 8));
    assert(draw_contexts(s, last, flat) =~= seq![DrawContext { state: e, uniforms: last, command: draw }]) by {
        reveal_with_fuel(run, 10);
    }
    assert forall|i: int| 0 <= i < cmds.len() && (#[trigger] cmds[i]) is SetFlippedY implies cmds[i] == flip by {
        assert(flat[0] !is SetFlippedY);
        if i != 7 {
            assert(flat[i] !is SetFlippedY);
        }
    }
    assert(cmds[7] is SetFlippedY);
    reveal_with_fuel(run, 10);
    assert(flat.subrange(0, 8) =~= seq![
        GlCommand::BindFramebuffer { framebuffer_id: t.framebuffer_id },
        GlCommand::Viewport { width: t.width, height: t.height },
        GlCommand::Enable(GlCapability::Texture2D),
        GlCommand::BindTexture { texture_id: texture.data.id },
        GlCommand::SetTextureFilter(filter),
        GlCommand::UseProgram { program_id: program },
        GlCommand::SetTransform { location: transform_location },
        flip,
    ]);
}

/// Law: an RGBA textured draw draws `count` vertices as triangles into the
/// target with the texture bound and texturing on, filtered linearly
/// exactly when filtering is asked for and nearest otherwise, whatever the
/// texture; and it tells the shader that the texture is stored upside down
/// exactly when it is.
pub proof fn lemma_textured_draw_samples_as_asked(
    s: GlState,
    last: Option<FragUniformsSource>,
    t: GlSurface,
    p: TexturedPipeline,
    texture: GlTexture,
    filtering: bool,
    count: usize,
)
    ensures
        ({
            let cmds = target_commands(t) + textured_commands(p, texture, filtering, count);
            let ctxs = draw_contexts(s, last, cmds);
            &&& ctxs.len() == 1
            &&& ctxs[0].command == (GlCommand::DrawArrays { vbo: p.vbo, vao: p.vao, mode: DrawMode::Triangles, count })
            &&& ctxs[0].state.framebuffer == t.framebuffer_id
            &&& ctxs[0].state.viewport == (t.width, t.height)
            &&& ctxs[0].state.texture_2d
            &&& ctxs[0].state.bound_texture == texture.data.id
            &&& ctxs[0].state.texture_filter == (if filtering { TextureFilter::Linear } else { TextureFilter::Nearest })
            &&& forall|i: int|
                0 <= i < cmds.len() && (#[trigger] cmds[i]) is SetFlippedY ==> cmds[i] == (GlCommand::SetFlippedY {
                    location: p.flipped_y_location,
                    value: if texture.data.flipped_y { 1i32 } else { 0i32 },
                })
            &&& exists|i: int| 0 <= i < cmds.len() && (#[trigger] cmds[i]) is SetFlippedY
        }),
{
    let cmds = target_commands(t) + textured_commands(p, texture, filtering, count);
    let rest = seq![
        GlCommand::UseProgram { program_id: p.program },
        GlCommand::SetTransform { location: p.transform_location },
        GlCommand::SetFlippedY {
            location: p.flipped_y_location,
            value: if texture.data.flipped_y { 1i32 } else { 0i32 },
        },
        GlCommand::DrawArrays { vbo: p.vbo, vao: p.vao, mode: DrawMode::Triangles, count },
    ];
    lemma_textured_shape(
        s,
        last,
        t,
        p.program,
        p.transform_location,
        p.flipped_y_location,
        p.vbo,
        p.vao,
        texture,
        filtering,
        count,
        rest,
    );
    assert(cmds =~= target_commands(t) + texture_binding(texture.data.id, filtering) + rest);
    assert(cmds[7] is SetFlippedY);
}

/// Law: a single channel textured draw (glyphs) draws `count` vertices as
/// triangles into the target with the texture bound and texturing on,
/// filtered linearly exactly when filtering is asked for and nearest
/// otherwise, whatever the texture; and it tells the shader that the texture
/// is stored upside down exactly when it is.
pub proof fn lemma_textured_y8_draw_samples_as_asked(
    s: GlState,
    last: Option<FragUniformsSource>,
    t: GlSurface,
    p: TexturedY8Pipeline,
    texture: GlTexture,
    filtering: bool,
    count: usize,
)
    ensures
        ({
            let cmds = target_commands(t) + textured_y8_commands(p, texture, filtering, count);
            let ctxs = draw_contexts(s, last, cmds);
            &&& ctxs.len() == 1
            &&& ctxs[0].command == (GlCommand::DrawArrays { vbo: p.vbo, vao: p.vao, mode: DrawMode::Triangles, count })
            &&& ctxs[0].state.framebuffer == t.framebuffer_id
            &&& ctxs[0].state.viewport == (t.width, t.height)
            &&& ctxs[0].state.texture_2d
            &&& ctxs[0].state.bound_texture == texture.data.id
            &&& ctxs[0].state.texture_filter == (if filtering { TextureFilter::Linear } else { TextureFilter::Nearest })
            &&& forall|i: int|
                0 <= i < cmds.len() && (#[trigger] cmds[i]) is SetFlippedY ==> cmds[i] == (GlCommand::SetFlippedY {
                    location: p.flipped_y_location,
                    value: if texture.data.flipped_y { 1i32 } else { 0i32 },
                })
            &&& exists|i: int| 0 <= i < cmds.len() && (#[trigger] cmds[i]) is SetFlippedY
        }),
{
    let cmds = target_commands(t) + textured_y8_commands(p, texture, filtering, count);
    let rest = seq![
        GlCommand::UseProgram { program_id: p.program },
        GlCommand::SetTransform { location: p.transform_location },
        GlCommand::SetFlippedY {
            location: p.flipped_y_location,
            value: if texture.data.flipped_y { 1i32 } else { 0i32 },
        },
        GlCommand::DrawArrays { vbo: p.vbo, vao: p.vao, mode: DrawMode::Triangles, count },
    ];
    lemma_textured_shape(
        s,
        last,
        t,
        p.program,
        p.transform_location,
        p.flipped_y_location,
        p.vbo,
        p.vao,
        texture,
        filtering,
        count,
        rest,
    );
    assert(cmds =~= target_commands(t) + texture_binding(texture.data.id, filtering) + rest);
    assert(cmds[7] is SetFlippedY);
}

} // verus!
