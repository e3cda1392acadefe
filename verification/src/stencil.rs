//! What the commands of a render pass do to the stencil value of one pixel.
//!
//! The stencil buffer has eight bits per pixel.  Where a draw command puts
//! fragments on a pixel depends on the vertices it draws, which the passes
//! leave to their caller; so the value of a pixel is followed through a
//! command list given `cover`, which maps each draw command to the faces of
//! the fragments it puts on that pixel, in the order they are rasterized.
//! A draw command issued twice in one pass draws the same vertices, so it
//! covers the pixel the same way both times.

use vstd::prelude::*;

use crate::gl_commands::{
    is_draw, lemma_run_append, run, step, writes_no_pixels, writes_pixels, DrawMode, Face, GlCapability,
    GlCommand, GlState, PathPart, StencilAction, StencilFunction,
};
use crate::gl_context::{
    convex_fill_head, convex_fill_pass, fill_bounds_draw, fill_draws, fill_pass, filter_for, has_part,
    is_convex_fill, lemma_convex_fill_keeps_state, lemma_stencil_fill_restores_state, lemma_keep_where_zero_run, lemma_path_draws_neutral,
    lemma_stencil_fill_cover_run, lemma_stencil_fill_head_run, lemma_stencil_fill_tail_run,
    lemma_stroke_clear_tail_run, lemma_stroke_head_run, lemma_target_neutral, lemma_texture_binding_run,
    path_draws, stencil_fill_cover, stencil_fill_head, stencil_fill_pass, stencil_fill_tail, stencil_func,
    stencil_keep_where_zero, stencil_op, stroke_clear_head, stroke_draws, stroke_fringe_head, stroke_head,
    stroke_pass, stroke_tail, target_commands, texture_binding, GlSurface, PathInfo,
};
use crate::pipelines::UniversalPipeline;

verus! {

/// The reference value the stencil test compares with: OpenGL clamps it to
/// the range of the eight-bit stencil buffer.
pub open spec fn stencil_reference(reference: i32) -> u8 {
    if reference < 0 {
        0
    } else if reference > 255 {
        255
    } else {
        reference as u8
    }
}

/// Whether a fragment over stencil value `v` passes the stencil test of `s`:
/// the reference and `v` are compared under the value mask.
pub open spec fn stencil_test_passes(s: GlState, v: u8) -> bool {
    let r = (stencil_reference(s.stencil_ref) as u32) & s.stencil_value_mask;
    let x = (v as u32) & s.stencil_value_mask;
    match s.stencil_func {
        StencilFunction::Always => true,
        StencilFunction::Equal => r == x,
        StencilFunction::NotEqual => r != x,
    }
}

/// The value a stencil action makes of `v`: `GL_INCR` saturates at 255,
/// `GL_INCR_WRAP` and `GL_DECR_WRAP` wrap around.
pub open spec fn apply_stencil_action(action: StencilAction, v: u8) -> u8 {
    match action {
        StencilAction::Keep => v,
        StencilAction::Zero => 0,
        StencilAction::Incr => if v == 255 { 255 } else { (v + 1) as u8 },
        StencilAction::IncrWrap => if v == 255 { 0 } else { (v + 1) as u8 },
        StencilAction::DecrWrap => if v == 0 { 255 } else { (v - 1) as u8 },
    }
}

/// Writes `new` over `old` through the write mask: only the bits set in
/// `mask` change.
pub open spec fn masked_write(old: u8, new: u8, mask: u32) -> u8 {
    (((old as u32) & !mask) | ((new as u32) & mask)) as u8
}

/// The face culling of `s`: the face it culls, if culling is on.
pub open spec fn culling(s: GlState) -> Option<Face> {
    if s.cull_face {
        Some(s.cull_mode)
    } else {
        None
    }
}

/// Whether a fragment of face `f` survives `culling`.
pub open spec fn passes_culling(culling: Option<Face>, f: Face) -> bool {
    match culling {
        Some(culled) => f != culled,
        None => true,
    }
}

/// The stencil value of a pixel after a fragment of face `f` lands on it in
/// state `s`.  Without the stencil test, or when the face is culled, the
/// value stays.  The passes never enable the depth test, so a fragment that
/// passes the stencil test takes its face's `pass` action, and one that fails
/// it takes its `stencil_fail` action.
pub open spec fn fragment_stencil(s: GlState, v: u8, f: Face) -> u8 {
    if !s.stencil_test || !passes_culling(culling(s), f) {
        v
    } else {
        let ops = match f {
            Face::Front => s.front_stencil_ops,
            Face::Back => s.back_stencil_ops,
        };
        let action = if stencil_test_passes(s, v) { ops.pass } else { ops.stencil_fail };
        masked_write(v, apply_stencil_action(action, v), s.stencil_write_mask)
    }
}

/// The stencil value after the fragments of `faces`, in order.
pub open spec fn fragments_stencil(s: GlState, v: u8, faces: Seq<Face>) -> u8
    decreases faces.len(),
{
    if faces.len() == 0 {
        v
    } else {
        fragments_stencil(s, fragment_stencil(s, v, faces[0]), faces.drop_first())
    }
}

/// The stencil value after one command in state `s`: a clear writes zero
/// (the clear value, which the library never changes) through the write
/// mask, a draw lands its fragments, and any other command leaves the value.
pub open spec fn command_stencil(
    s: GlState,
    c: GlCommand,
    v: u8,
    cover: spec_fn(GlCommand) -> Seq<Face>,
) -> u8 {
    if c is ClearColor {
        masked_write(v, 0, s.stencil_write_mask)
    } else if is_draw(c) {
        fragments_stencil(s, v, cover(c))
    } else {
        v
    }
}

/// The stencil value of the pixel after `cmds`, run from state `s` with
/// stencil value `v`.
pub open spec fn stencil_after(
    s: GlState,
    cmds: Seq<GlCommand>,
    v: u8,
    cover: spec_fn(GlCommand) -> Seq<Face>,
) -> u8
    decreases cmds.len(),
{
    if cmds.len() == 0 {
        v
    } else {
        stencil_after(step(s, cmds[0]), cmds.drop_first(), command_stencil(s, cmds[0], v, cover), cover)
    }
}

/// Whether some fragment of `faces` survives `culling`.
pub open spec fn live_fragment(culling: Option<Face>, faces: Seq<Face>) -> bool {
    exists|j: int| 0 <= j < faces.len() && passes_culling(culling, #[trigger] faces[j])
}

/// The command that draws the `part` of path `i` in the passes of `u`.
pub open spec fn part_draw(u: UniversalPipeline, i: int, part: PathPart) -> GlCommand {
    GlCommand::DrawPath {
        vbo: u.vbo,
        vao: u.vao,
        path: i as usize,
        part,
        mode: match part {
            PathPart::Fill => DrawMode::TriangleFan,
            PathPart::Stroke => DrawMode::TriangleStrip,
        },
    }
}

/// Whether the `part` of one of the first `n` paths that has one puts on
/// the pixel a fragment that survives `culling`.
pub open spec fn parts_reach(
    culling: Option<Face>,
    u: UniversalPipeline,
    paths: Seq<PathInfo>,
    n: int,
    part: PathPart,
    cover: spec_fn(GlCommand) -> Seq<Face>,
) -> bool {
    exists|i: int|
        0 <= i < n && has_part(paths[i], part) && live_fragment(culling, cover(#[trigger] part_draw(u, i, part)))
}

proof fn lemma_stencil_after_append(
    s: GlState,
    a: Seq<GlCommand>,
    b: Seq<GlCommand>,
    v: u8,
    cover: spec_fn(GlCommand) -> Seq<Face>,
)
    ensures
        stencil_after(s, a + b, v, cover) == stencil_after(run(s, a), b, stencil_after(s, a, v, cover), cover),
    decreases a.len(),
{
    if a.len() == 0 {
        assert(a + b =~= b);
    } else {
        assert((a + b).drop_first() =~= a.drop_first() + b);
        assert((a + b)[0] == a[0]);
        lemma_stencil_after_append(step(s, a[0]), a.drop_first(), b, command_stencil(s, a[0], v, cover), cover);
    }
}

proof fn lemma_no_pixel_writes(s: GlState, cmds: Seq<GlCommand>, v: u8, cover: spec_fn(GlCommand) -> Seq<Face>)
    requires
        writes_no_pixels(cmds),
    ensures
        stencil_after(s, cmds, v, cover) == v,
    decreases cmds.len(),
{
    if cmds.len() > 0 {
        assert(!writes_pixels(cmds[0]));
        lemma_no_pixel_writes(step(s, cmds[0]), cmds.drop_first(), v, cover);
    }
}

proof fn lemma_masked_write_keep(v: u8, mask: u32)
    ensures
        masked_write(v, v, mask) == v,
{
    assert((((v as u32) & !mask) | ((v as u32) & mask)) as u8 == v) by (bit_vector);
}

proof fn lemma_masked_write_full(v: u8, x: u8)
    ensures
        masked_write(v, x, 0xff) == x,
{
    assert((((v as u32) & !0xffu32) | ((x as u32) & 0xffu32)) as u8 == x) by (bit_vector);
}

proof fn lemma_live_fragment_step(culling: Option<Face>, faces: Seq<Face>)
    requires
        faces.len() > 0,
    ensures
        live_fragment(culling, faces) == (passes_culling(culling, faces[0]) || live_fragment(
            culling,
            faces.drop_first(),
        )),
{
    if live_fragment(culling, faces.drop_first()) {
        let j = choose|j: int| 0 <= j < faces.drop_first().len() && passes_culling(culling, #[trigger] faces.drop_first()[j]);
        assert(faces[j + 1] == faces.drop_first()[j]);
    }
    if live_fragment(culling, faces) && !passes_culling(culling, faces[0]) {
        let j = choose|j: int| 0 <= j < faces.len() && passes_culling(culling, #[trigger] faces[j]);
        assert(j != 0);
        assert(faces.drop_first()[j - 1] == faces[j]);
    }
}

/// Fragments that culling discards leave the value.
proof fn lemma_fragments_unreached(s: GlState, v: u8, faces: Seq<Face>)
    requires
        !live_fragment(culling(s), faces),
    ensures
        fragments_stencil(s, v, faces) == v,
    decreases faces.len(),
{
    if faces.len() > 0 {
        lemma_live_fragment_step(culling(s), faces);
        lemma_fragments_unreached(s, v, faces.drop_first());
    }
}

/// Where every action is `GL_KEEP`, fragments leave the value.
proof fn lemma_fragments_keep(s: GlState, v: u8, faces: Seq<Face>)
    requires
        s.front_stencil_ops.pass == StencilAction::Keep,
        s.front_stencil_ops.stencil_fail == StencilAction::Keep,
        s.back_stencil_ops.pass == StencilAction::Keep,
        s.back_stencil_ops.stencil_fail == StencilAction::Keep,
    ensures
        fragments_stencil(s, v, faces) == v,
    decreases faces.len(),
{
    if faces.len() > 0 {
        lemma_masked_write_keep(v, s.stencil_write_mask);
        assert(fragment_stencil(s, v, faces[0]) == v);
        lemma_fragments_keep(s, v, faces.drop_first());
    }
}

/// With the stencil test on, all eight bits writable and every action
/// `GL_ZERO`, the value is zero after any fragment that culling lets through.
proof fn lemma_fragments_zero(s: GlState, v: u8, faces: Seq<Face>)
    requires
        s.stencil_test,
        s.stencil_write_mask == 0xff,
        s.front_stencil_ops.pass == StencilAction::Zero,
        s.front_stencil_ops.stencil_fail == StencilAction::Zero,
        s.back_stencil_ops.pass == StencilAction::Zero,
        s.back_stencil_ops.stencil_fail == StencilAction::Zero,
    ensures
        fragments_stencil(s, v, faces) == if live_fragment(culling(s), faces) { 0u8 } else { v },
    decreases faces.len(),
{
    if faces.len() > 0 {
        lemma_live_fragment_step(culling(s), faces);
        lemma_masked_write_full(v, 0);
        lemma_fragments_zero(s, fragment_stencil(s, v, faces[0]), faces.drop_first());
    }
}

/// Every action of both faces is `GL_KEEP`.
spec fn keeps_stencil(s: GlState) -> bool {
    &&& s.front_stencil_ops.pass == StencilAction::Keep
    &&& s.front_stencil_ops.stencil_fail == StencilAction::Keep
    &&& s.back_stencil_ops.pass == StencilAction::Keep
    &&& s.back_stencil_ops.stencil_fail == StencilAction::Keep
}

/// The stencil test is on, all eight bits are writable and every action of
/// both faces is `GL_ZERO`.
spec fn zeroes_stencil(s: GlState) -> bool {
    &&& s.stencil_test
    &&& s.stencil_write_mask == 0xff
    &&& s.front_stencil_ops.pass == StencilAction::Zero
    &&& s.front_stencil_ops.stencil_fail == StencilAction::Zero
    &&& s.back_stencil_ops.pass == StencilAction::Zero
    &&& s.back_stencil_ops.stencil_fail == StencilAction::Zero
}

spec fn part_mode(part: PathPart) -> DrawMode {
    match part {
        PathPart::Fill => DrawMode::TriangleFan,
        PathPart::Stroke => DrawMode::TriangleStrip,
    }
}

proof fn lemma_parts_reach_step(
    culling: Option<Face>,
    u: UniversalPipeline,
    paths: Seq<PathInfo>,
    n: int,
    part: PathPart,
    cover: spec_fn(GlCommand) -> Seq<Face>,
)
    requires
        n > 0,
    ensures
        parts_reach(culling, u, paths, n, part, cover) == (parts_reach(culling, u, paths, n - 1, part, cover) || (
        has_part(paths[n - 1], part) && live_fragment(culling, cover(part_draw(u, n - 1, part))))),
{
    if parts_reach(culling, u, paths, n, part, cover) && !parts_reach(culling, u, paths, n - 1, part, cover) {
        let i = choose|i: int|
            0 <= i < n && has_part(paths[i], part) && live_fragment(culling, cover(#[trigger] part_draw(u, i, part)));
        assert(i == n - 1);
    }
    if parts_reach(culling, u, paths, n - 1, part, cover) {
        let i = choose|i: int|
            0 <= i < n - 1 && has_part(paths[i], part) && live_fragment(culling, cover(#[trigger] part_draw(u, i, part)));
        assert(0 <= i < n);
    }
}

/// The draws of the `part` of the first `n` paths, all in state `s` (they
/// switch no state): they leave the value where none of their fragments
/// survives culling, or where every action keeps it; where every action
/// zeroes it, they leave zero exactly where one does.
proof fn lemma_part_draws_stencil(
    s: GlState,
    u: UniversalPipeline,
    paths: Seq<PathInfo>,
    n: int,
    part: PathPart,
    v: u8,
    cover: spec_fn(GlCommand) -> Seq<Face>,
)
    ensures
        ({
            let draws = path_draws(paths, n, part, part_mode(part), u.vbo, u.vao);
            &&& run(s, draws) == s
            &&& !parts_reach(culling(s), u, paths, n, part, cover) ==> stencil_after(s, draws, v, cover) == v
            &&& keeps_stencil(s) ==> stencil_after(s, draws, v, cover) == v
            &&& zeroes_stencil(s) ==> stencil_after(s, draws, v, cover) == if parts_reach(
                culling(s),
                u,
                paths,
                n,
                part,
                cover,
            ) {
                0u8
            } else {
                v
            }
        }),
    decreases n,
{
    let mode = part_mode(part);
    lemma_path_draws_neutral(s, paths, n, part, mode, u.vbo, u.vao);
    if n > 0 {
        let prev = path_draws(paths, n - 1, part, mode, u.vbo, u.vao);
        let c = part_draw(u, n - 1, part);
        let last = if has_part(paths[n - 1], part) { seq![c] } else { Seq::empty() };
        assert(path_draws(paths, n, part, mode, u.vbo, u.vao) == prev + last);
        lemma_part_draws_stencil(s, u, paths, n - 1, part, v, cover);
        lemma_path_draws_neutral(s, paths, n - 1, part, mode, u.vbo, u.vao);
        lemma_stencil_after_append(s, prev, last, v, cover);
        lemma_parts_reach_step(culling(s), u, paths, n, part, cover);
        let w = stencil_after(s, prev, v, cover);
        reveal_with_fuel(stencil_after, 2);
        assert(stencil_after(s, last, w, cover) == if has_part(paths[n - 1], part) {
            fragments_stencil(s, w, cover(c))
        } else {
            w
        });
        if !live_fragment(culling(s), cover(c)) {
            lemma_fragments_unreached(s, w, cover(c));
        }
        if keeps_stencil(s) {
            lemma_fragments_keep(s, w, cover(c));
        }
        if zeroes_stencil(s) {
            lemma_fragments_zero(s, w, cover(c));
        }
    }
}

/// Without the stencil test, fragments leave the value.
proof fn lemma_fragments_without_test(s: GlState, v: u8, faces: Seq<Face>)
    requires
        !s.stencil_test,
    ensures
        fragments_stencil(s, v, faces) == v,
    decreases faces.len(),
{
    if faces.len() > 0 {
        lemma_fragments_without_test(s, v, faces.drop_first());
    }
}

/// Law: a stroke pass leaves the stencil of a pixel at zero where one of
/// its strokes puts a fragment that the face culling in force lets through,
/// and leaves the stencil of every other pixel as it was, whatever state
/// and stencil value it starts from.
pub proof fn lemma_stroke_pass_clears_stencil(
    s: GlState,
    t: GlSurface,
    u: UniversalPipeline,
    paths: Seq<PathInfo>,
    antialiasing: bool,
    v: u8,
    cover: spec_fn(GlCommand) -> Seq<Face>,
)
    ensures
        stencil_after(s, target_commands(t) + stroke_pass(u, paths, antialiasing), v, cover) == if parts_reach(
            culling(s),
            u,
            paths,
            paths.len() as int,
            PathPart::Stroke,
            cover,
        ) {
            0u8
        } else {
            v
        },
{
    let n = paths.len() as int;
    let draws = stroke_draws(u, paths);
    let head = stroke_head(u, antialiasing);
    let aa_head = stroke_fringe_head(u);
    let aa_part = if antialiasing { aa_head + draws } else { Seq::empty() };
    let clear_head = stroke_clear_head();
    let tail = stroke_tail();
    let target = target_commands(t);
    assert(target + stroke_pass(u, paths, antialiasing) == target + (head + draws + aa_part + clear_head + draws + tail));

    lemma_target_neutral(s, t);
    lemma_no_pixel_writes(s, target, v, cover);
    let s0 = run(s, target);
    lemma_stroke_head_run(s0, u, antialiasing);
    lemma_no_pixel_writes(s0, head, v, cover);
    let s1 = run(s0, head);
    lemma_part_draws_stencil(s1, u, paths, n, PathPart::Stroke, v, cover);
    let v1 = stencil_after(s1, draws, v, cover);

    lemma_keep_where_zero_run(s1, u);
    lemma_no_pixel_writes(s1, aa_head, v1, cover);
    lemma_part_draws_stencil(run(s1, aa_head), u, paths, n, PathPart::Stroke, v1, cover);
    lemma_stencil_after_append(s1, aa_head, draws, v1, cover);
    lemma_run_append(s1, aa_head, draws);
    assert(stencil_after(s1, aa_part, v1, cover) == v1);
    let s2 = run(s1, aa_part);

    lemma_stroke_clear_tail_run(s2);
    lemma_no_pixel_writes(s2, clear_head, v1, cover);
    let s3 = run(s2, clear_head);
    lemma_part_draws_stencil(s3, u, paths, n, PathPart::Stroke, v1, cover);
    let v3 = stencil_after(s3, draws, v1, cover);
    lemma_stroke_clear_tail_run(s3);
    lemma_no_pixel_writes(s3, tail, v3, cover);

    lemma_run_append(s0, head + draws + aa_part + clear_head, draws);
    lemma_run_append(s0, head + draws + aa_part, clear_head);
    lemma_run_append(s0, head + draws, aa_part);
    lemma_run_append(s0, head, draws);
    lemma_stencil_after_append(s, target, head + draws + aa_part + clear_head + draws + tail, v, cover);
    lemma_stencil_after_append(s0, head + draws + aa_part + clear_head + draws, tail, v, cover);
    lemma_stencil_after_append(s0, head + draws + aa_part + clear_head, draws, v, cover);
    lemma_stencil_after_append(s0, head + draws + aa_part, clear_head, v, cover);
    lemma_stencil_after_append(s0, head + draws, aa_part, v, cover);
    lemma_stencil_after_append(s0, head, draws, v, cover);
}

/// The stencil fill pass, from any state.
proof fn lemma_stencil_fill_pass_stencil(
    sb: GlState,
    u: UniversalPipeline,
    paths: Seq<PathInfo>,
    antialiasing: bool,
    v: u8,
    cover: spec_fn(GlCommand) -> Seq<Face>,
)
    ensures
        ({
            let e = stencil_after(sb, stencil_fill_pass(u, paths, antialiasing), v, cover);
            &&& cover(fill_bounds_draw(u)).len() > 0 ==> e == 0
            &&& cover(fill_bounds_draw(u)).len() == 0 && !parts_reach(
                None,
                u,
                paths,
                paths.len() as int,
                PathPart::Fill,
                cover,
            ) ==> e == v
        }),
{
    let n = paths.len() as int;
    let head = stencil_fill_head(u);
    let fills = fill_draws(u, paths);
    let cover_cmds = stencil_fill_cover(u);
    let aa_head = stencil_keep_where_zero();
    let strokes = stroke_draws(u, paths);
    let aa_part = if antialiasing { aa_head + strokes } else { Seq::empty() };
    let tail = stencil_fill_tail(u);
    let pass = head + fills + cover_cmds + aa_part + tail;
    assert(stencil_fill_pass(u, paths, antialiasing) == pass);

    lemma_stencil_fill_head_run(sb, u);
    lemma_no_pixel_writes(sb, head, v, cover);
    let s1 = run(sb, head);
    lemma_part_draws_stencil(s1, u, paths, n, PathPart::Fill, v, cover);
    let v1 = stencil_after(s1, fills, v, cover);

    lemma_stencil_fill_cover_run(s1, u);
    lemma_no_pixel_writes(s1, cover_cmds, v1, cover);
    let s2 = run(s1, cover_cmds);
    lemma_keep_where_zero_run(s2, u);
    lemma_no_pixel_writes(s2, aa_head, v1, cover);
    lemma_part_draws_stencil(run(s2, aa_head), u, paths, n, PathPart::Stroke, v1, cover);
    lemma_stencil_after_append(s2, aa_head, strokes, v1, cover);
    lemma_run_append(s2, aa_head, strokes);
    assert(stencil_after(s2, aa_part, v1, cover) == v1);
    let s3 = run(s2, aa_part);
    assert(s3.stencil_test && s3.stencil_write_mask == 0xff);

    lemma_stencil_fill_tail_run(s3, u);
    let before = seq![
        GlCommand::Disable(GlCapability::CullFace),
        stencil_func(StencilFunction::NotEqual),
        stencil_op(StencilAction::Zero, StencilAction::Zero),
    ];
    let b = fill_bounds_draw(u);
    let after = seq![GlCommand::Disable(GlCapability::StencilTest)];
    lemma_no_pixel_writes(s3, before, v1, cover);
    let s4 = run(s3, before);
    assert(zeroes_stencil(s4) && culling(s4) == None::<Face>);
    lemma_fragments_zero(s4, v1, cover(b));
    if cover(b).len() > 0 {
        assert(passes_culling(None, cover(b)[0]));
    }
    reveal_with_fuel(stencil_after, 2);
    let v4 = stencil_after(s4, seq![b], v1, cover);
    assert(v4 == fragments_stencil(s4, v1, cover(b)));
    lemma_no_pixel_writes(run(s4, seq![b]), after, v4, cover);
    lemma_stencil_after_append(s3, before + seq![b], after, v1, cover);
    lemma_stencil_after_append(s3, before, seq![b], v1, cover);
    lemma_run_append(s3, before, seq![b]);

    lemma_run_append(sb, head + fills + cover_cmds, aa_part);
    lemma_run_append(sb, head + fills, cover_cmds);
    lemma_run_append(sb, head, fills);
    lemma_stencil_after_append(sb, head + fills + cover_cmds + aa_part, tail, v, cover);
    lemma_stencil_after_append(sb, head + fills + cover_cmds, aa_part, v, cover);
    lemma_stencil_after_append(sb, head + fills, cover_cmds, v, cover);
    lemma_stencil_after_append(sb, head, fills, v, cover);
}

/// Law: a fill through the stencil buffer leaves the stencil of every pixel
/// under the bounding quad of the paths at zero, whatever it counted there;
/// a pixel that neither the fills of the paths nor the quad reach keeps its
/// stencil.  Both hold whatever state and stencil value the pass starts
/// from.
pub proof fn lemma_stencil_fill_clears_stencil(
    s: GlState,
    t: GlSurface,
    u: UniversalPipeline,
    paths: Seq<PathInfo>,
    antialiasing: bool,
    image: Option<u32>,
    filtering: bool,
    v: u8,
    cover: spec_fn(GlCommand) -> Seq<Face>,
)
    requires
        !is_convex_fill(paths),
    ensures
        ({
            let e = stencil_after(s, target_commands(t) + fill_pass(u, paths, antialiasing, image, filtering), v, cover);
            &&& cover(fill_bounds_draw(u)).len() > 0 ==> e == 0
            &&& cover(fill_bounds_draw(u)).len() == 0 && !parts_reach(
                None,
                u,
                paths,
                paths.len() as int,
                PathPart::Fill,
                cover,
            ) ==> e == v
        }),
{
    let target = target_commands(t);
    let binding = match image {
        Some(id) => texture_binding(id, filtering),
        None => Seq::<GlCommand>::empty(),
    };
    let pass = stencil_fill_pass(u, paths, antialiasing);
    assert(fill_pass(u, paths, antialiasing, image, filtering) == binding + pass);
    lemma_target_neutral(s, t);
    lemma_no_pixel_writes(s, target, v, cover);
    let s0 = run(s, target);
    match image {
        Some(id) => {
            lemma_texture_binding_run(s0, id, filtering);
        },
        None => {
            assert(writes_no_pixels(binding));
            assert(run(s0, binding) == s0);
        },
    }
    lemma_no_pixel_writes(s0, binding, v, cover);
    lemma_stencil_fill_pass_stencil(run(s0, binding), u, paths, antialiasing, v, cover);
    lemma_stencil_after_append(s, target, binding + pass, v, cover);
    lemma_stencil_after_append(s0, binding, pass, v, cover);
}

/// The convex fill pass, run with the stencil test off, leaves the value.
proof fn lemma_convex_fill_pass_stencil(
    s: GlState,
    u: UniversalPipeline,
    p: PathInfo,
    antialiasing: bool,
    v: u8,
    cover: spec_fn(GlCommand) -> Seq<Face>,
)
    requires
        !s.stencil_test,
    ensures
        stencil_after(s, convex_fill_pass(u, p, antialiasing), v, cover) == v,
{
    let head = convex_fill_head(u);
    let fc = part_draw(u, 0, PathPart::Fill);
    let kc = part_draw(u, 0, PathPart::Stroke);
    let f = if has_part(p, PathPart::Fill) { seq![fc] } else { Seq::empty() };
    let k = if antialiasing && has_part(p, PathPart::Stroke) { seq![kc] } else { Seq::empty() };
    assert(convex_fill_pass(u, p, antialiasing) == head + f + k);
    lemma_convex_fill_keeps_state(s, u, p, antialiasing);
    reveal_with_fuel(run, 4);
    reveal_with_fuel(writes_no_pixels, 4);
    assert(run(s, head) == s);
    lemma_no_pixel_writes(s, head, v, cover);
    reveal_with_fuel(stencil_after, 2);
    lemma_fragments_without_test(s, v, cover(fc));
    lemma_fragments_without_test(s, v, cover(kc));
    assert(stencil_after(s, f, v, cover) == v && run(s, f) == s);
    assert(stencil_after(s, k, v, cover) == v);
    lemma_run_append(s, head, f);
    lemma_stencil_after_append(s, head + f, k, v, cover);
    lemma_stencil_after_append(s, head, f, v, cover);
}

/// Law: a fill that takes the direct convex path, started with the stencil
/// test off, leaves the stencil of every pixel as it was.
pub proof fn lemma_convex_fill_keeps_stencil(
    s: GlState,
    t: GlSurface,
    u: UniversalPipeline,
    paths: Seq<PathInfo>,
    antialiasing: bool,
    image: Option<u32>,
    filtering: bool,
    v: u8,
    cover: spec_fn(GlCommand) -> Seq<Face>,
)
    requires
        is_convex_fill(paths),
        !s.stencil_test,
    ensures
        stencil_after(s, target_commands(t) + fill_pass(u, paths, antialiasing, image, filtering), v, cover) == v,
{
    let target = target_commands(t);
    let binding = match image {
        Some(id) => texture_binding(id, filtering),
        None => Seq::<GlCommand>::empty(),
    };
    let pass = convex_fill_pass(u, paths[0], antialiasing);
    assert(fill_pass(u, paths, antialiasing, image, filtering) == binding + pass);
    lemma_target_neutral(s, t);
    lemma_no_pixel_writes(s, target, v, cover);
    let s0 = run(s, target);
    match image {
        Some(id) => {
            lemma_texture_binding_run(s0, id, filtering);
        },
        None => {
            assert(writes_no_pixels(binding));
            assert(run(s0, binding) == s0);
        },
    }
    lemma_no_pixel_writes(s0, binding, v, cover);
    lemma_convex_fill_pass_stencil(run(s0, binding), u, paths[0], antialiasing, v, cover);
    lemma_stencil_after_append(s, target, binding + pass, v, cover);
    lemma_stencil_after_append(s0, binding, pass, v, cover);
}

/// Law: a fill leaves the target's framebuffer bound and the viewport at
/// the target's size.  With an image paint it binds the image, filtered
/// linearly exactly when filtering is asked for, and turns texturing on;
/// without one it leaves texturing, the bound texture and its filter as they
/// were.  A fill through the stencil buffer ends with the stencil test and
/// face culling off and color writes on, and with the stencil at zero under
/// its bounding quad; a convex fill leaves those switches as they were.
/// Blending is never touched.
pub proof fn lemma_fill_pass_effects(
    s: GlState,
    t: GlSurface,
    u: UniversalPipeline,
    paths: Seq<PathInfo>,
    antialiasing: bool,
    image: Option<u32>,
    filtering: bool,
    v: u8,
    cover: spec_fn(GlCommand) -> Seq<Face>,
)
    ensures
        ({
            let cmds = target_commands(t) + fill_pass(u, paths, antialiasing, image, filtering);
            let e = run(s, cmds);
            &&& e.framebuffer == t.framebuffer_id
            &&& e.viewport == (t.width, t.height)
            &&& e.bound_texture == match image {
                Some(id) => id,
                None => s.bound_texture,
            }
            &&& e.texture_filter == match image {
                Some(_) => filter_for(filtering),
                None => s.texture_filter,
            }
            &&& e.texture_2d == (image is Some || s.texture_2d)
            &&& e.blend == s.blend
            &&& !is_convex_fill(paths) ==> !e.stencil_test && e.color_write && !e.cull_face
            &&& !is_convex_fill(paths) && cover(fill_bounds_draw(u)).len() > 0 ==> stencil_after(s, cmds, v, cover)
                == 0
            &&& is_convex_fill(paths) ==> e.stencil_test == s.stencil_test && e.color_write == s.color_write
                && e.cull_face == s.cull_face
        }),
{
    let target = target_commands(t);
    let binding = match image {
        Some(id) => texture_binding(id, filtering),
        None => Seq::<GlCommand>::empty(),
    };
    let pass = if is_convex_fill(paths) {
        convex_fill_pass(u, paths[0], antialiasing)
    } else {
        stencil_fill_pass(u, paths, antialiasing)
    };
    assert(fill_pass(u, paths, antialiasing, image, filtering) == binding + pass);
    lemma_target_neutral(s, t);
    let s0 = run(s, target);
    match image {
        Some(id) => {
            lemma_texture_binding_run(s0, id, filtering);
        },
        None => {
            assert(run(s0, binding) == s0);
        },
    }
    let sb = run(s0, binding);
    if is_convex_fill(paths) {
        lemma_convex_fill_keeps_state(sb, u, paths[0], antialiasing);
    } else {
        lemma_stencil_fill_restores_state(sb, u, paths, antialiasing);
        lemma_stencil_fill_clears_stencil(s, t, u, paths, antialiasing, image, filtering, v, cover);
    }
    lemma_run_append(s, target, binding + pass);
    lemma_run_append(s0, binding, pass);
}

} // verus!
