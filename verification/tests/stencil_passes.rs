use drawing_gl::gl_commands::{Face, GlCapability, GlCommand, PathPart, StencilAction, StencilFunction};
use drawing_gl::gl_context::{ColorFormat, GlContextData, GlSurface, PathInfo};
use drawing_gl::pipelines::{ColoredPipeline, TexturedPipeline, TexturedY8Pipeline, UniversalPipeline};

fn context() -> GlContextData {
    GlContextData::from_pipelines(
        ColoredPipeline::from_program(1, 10),
        (100, 101),
        TexturedPipeline::from_program(2, 20, 21),
        (200, 201),
        TexturedY8Pipeline::from_program(3, 30, 31),
        (300, 301),
        UniversalPipeline::from_program(4, 40, 41, 42),
        (400, 401),
    )
}

fn surface() -> GlSurface {
    GlSurface::wrap_gl_framebuffer(5, 640, 480, ColorFormat::RGBA)
}

fn path(convex: bool) -> PathInfo {
    PathInfo { convex, fill_vertex_count: 6, stroke_vertex_count: 10 }
}

#[derive(Clone, Copy)]
struct Ops {
    fail: StencilAction,
    pass: StencilAction,
}

/// The stencil state of OpenGL, and one pixel's stencil value.
struct Pixel {
    test: bool,
    cull: bool,
    cull_mode: Face,
    func: StencilFunction,
    reference: i32,
    value_mask: u32,
    write_mask: u32,
    front: Ops,
    back: Ops,
    value: u8,
}

impl Pixel {
    fn new(value: u8) -> Pixel {
        let keep = Ops { fail: StencilAction::Keep, pass: StencilAction::Keep };
        Pixel {
            test: false,
            cull: false,
            cull_mode: Face::Back,
            func: StencilFunction::Always,
            reference: 0,
            value_mask: 0xff,
            write_mask: 0xff,
            front: keep,
            back: keep,
            value,
        }
    }

    fn fragment(&mut self, face: Face) {
        if !self.test || (self.cull && face == self.cull_mode) {
            return;
        }
        let r = (self.reference.clamp(0, 255) as u32) & self.value_mask;
        let x = (self.value as u32) & self.value_mask;
        let passes = match self.func {
            StencilFunction::Always => true,
            StencilFunction::Equal => r == x,
            StencilFunction::NotEqual => r != x,
        };
        let ops = if face == Face::Front { self.front } else { self.back };
        let v = self.value;
        let new = match if passes { ops.pass } else { ops.fail } {
            StencilAction::Keep => v,
            StencilAction::Zero => 0,
            StencilAction::Incr => v.saturating_add(1),
            StencilAction::IncrWrap => v.wrapping_add(1),
            StencilAction::DecrWrap => v.wrapping_sub(1),
        };
        self.value = ((v as u32 & !self.write_mask) | (new as u32 & self.write_mask)) as u8;
    }

    fn run(&mut self, cmds: &[GlCommand], cover: impl Fn(&GlCommand) -> Vec<Face>) {
        for c in cmds {
            match *c {
                GlCommand::Enable(GlCapability::StencilTest) => self.test = true,
                GlCommand::Disable(GlCapability::StencilTest) => self.test = false,
                GlCommand::Enable(GlCapability::CullFace) => self.cull = true,
                GlCommand::Disable(GlCapability::CullFace) => self.cull = false,
                GlCommand::CullFace(face) => self.cull_mode = face,
                GlCommand::StencilMask(mask) => self.write_mask = mask,
                GlCommand::StencilFunc { func, reference, mask } => {
                    self.func = func;
                    self.reference = reference;
                    self.value_mask = mask;
                }
                GlCommand::StencilOp { stencil_fail, pass, .. } => {
                    self.front = Ops { fail: stencil_fail, pass };
                    self.back = self.front;
                }
                GlCommand::StencilOpSeparate { face, stencil_fail, pass, .. } => {
                    let ops = Ops { fail: stencil_fail, pass };
                    if face == Face::Front {
                        self.front = ops;
                    } else {
                        self.back = ops;
                    }
                }
                GlCommand::ClearColor => {
                    self.value = (self.value as u32 & !self.write_mask) as u8;
                }
                GlCommand::DrawPath { .. } | GlCommand::DrawArrays { .. } | GlCommand::DrawFillBounds { .. } => {
                    for face in cover(c) {
                        self.fragment(face);
                    }
                }
                _ => {}
            }
        }
    }
}

fn stroke_of(path_index: usize, faces: Vec<Face>) -> impl Fn(&GlCommand) -> Vec<Face> {
    move |c: &GlCommand| match *c {
        GlCommand::DrawPath { path, part: PathPart::Stroke, .. } if path == path_index => faces.clone(),
        _ => Vec::new(),
    }
}

#[test]
fn overlapping_strokes_leave_the_stencil_zero() {
    let mut cmds = Vec::new();
    let paths = vec![path(false), path(false)];
    context().stroke(&surface(), &paths, true, &mut cmds);
    // Two overlapping triangles of the second stroke cover the pixel.
    let mut pixel = Pixel::new(0);
    pixel.run(&cmds, stroke_of(1, vec![Face::Front, Face::Back]));
    assert_eq!(pixel.value, 0);
    assert!(!pixel.test);
    // A stencil value left over from elsewhere is cleared too.
    let mut pixel = Pixel::new(7);
    pixel.run(&cmds, stroke_of(0, vec![Face::Front]));
    assert_eq!(pixel.value, 0);
}

#[test]
fn a_pixel_no_stroke_reaches_keeps_its_stencil() {
    let mut cmds = Vec::new();
    context().stroke(&surface(), &vec![path(false)], false, &mut cmds);
    let mut pixel = Pixel::new(9);
    pixel.run(&cmds, |_c: &GlCommand| Vec::new());
    assert_eq!(pixel.value, 9);
}

#[test]
fn culled_stroke_fragments_leave_the_stencil() {
    let mut cmds = Vec::new();
    context().stroke(&surface(), &vec![path(false)], true, &mut cmds);
    let mut pixel = Pixel::new(4);
    pixel.cull = true;
    pixel.cull_mode = Face::Back;
    pixel.run(&cmds, stroke_of(0, vec![Face::Back]));
    assert_eq!(pixel.value, 4);
}

#[test]
fn the_bounding_quad_clears_the_counted_fills() {
    let mut cmds = Vec::new();
    let paths = vec![path(false), path(true)];
    context().fill(&surface(), None, false, &paths, true, &mut cmds);
    // Both fills wind over the pixel: the count reaches two before the quad.
    let cover = |c: &GlCommand| match *c {
        GlCommand::DrawPath { part: PathPart::Fill, .. } => vec![Face::Front],
        GlCommand::DrawFillBounds { .. } => vec![Face::Front, Face::Back],
        _ => Vec::new(),
    };
    let mut counted = Pixel::new(0);
    let quad = cmds.iter().position(|c| matches!(c, GlCommand::DrawFillBounds { .. })).unwrap();
    counted.run(&cmds[..quad], cover);
    assert_eq!(counted.value, 2);
    let mut pixel = Pixel::new(0);
    pixel.run(&cmds, cover);
    assert_eq!(pixel.value, 0);
    assert!(!pixel.test);
}

#[test]
fn opposite_windings_cancel_and_are_still_cleared() {
    let mut cmds = Vec::new();
    let paths = vec![path(false), path(false)];
    context().fill(&surface(), Some(77), true, &paths, false, &mut cmds);
    let cover = |c: &GlCommand| match *c {
        GlCommand::DrawPath { path: 0, part: PathPart::Fill, .. } => vec![Face::Front],
        GlCommand::DrawPath { path: 1, part: PathPart::Fill, .. } => vec![Face::Back, Face::Back],
        GlCommand::DrawFillBounds { .. } => vec![Face::Front],
        _ => Vec::new(),
    };
    let mut pixel = Pixel::new(3);
    pixel.run(&cmds, cover);
    assert_eq!(pixel.value, 0);
}

#[test]
fn a_pixel_outside_the_fill_keeps_its_stencil() {
    let mut cmds = Vec::new();
    context().fill(&surface(), None, false, &vec![path(false)], true, &mut cmds);
    let mut pixel = Pixel::new(5);
    pixel.run(&cmds, |_c: &GlCommand| Vec::new());
    assert_eq!(pixel.value, 5);
}

#[test]
fn a_convex_fill_leaves_the_stencil() {
    let mut cmds = Vec::new();
    context().fill(&surface(), None, false, &vec![path(true)], true, &mut cmds);
    let mut pixel = Pixel::new(6);
    pixel.run(&cmds, |_c: &GlCommand| vec![Face::Front, Face::Back]);
    assert_eq!(pixel.value, 6);
}

#[test]
fn clearing_zeroes_the_stencil() {
    let mut cmds = Vec::new();
    context().clear(&surface(), &mut cmds);
    let mut pixel = Pixel::new(200);
    pixel.run(&cmds, |_c: &GlCommand| Vec::new());
    assert_eq!(pixel.value, 0);
}
