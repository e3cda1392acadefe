use vstd::prelude::*;

verus! {

/// How the ends of a stroked line are drawn.
#[derive(Debug, Copy, Clone, PartialEq, Eq, Structural)]
pub enum LineCap {
    Butt,
    Round,
    Square,
}

/// How the corners of a stroked path are drawn.
#[derive(Debug, Copy, Clone, PartialEq, Eq, Structural)]
pub enum LineJoin {
    Miter,
    Round,
    Bevel,
}

/// Whether a sub-path adds area or cuts a hole.
#[derive(Debug, Copy, Clone, PartialEq, Eq, Structural)]
pub enum Solidity {
    Solid,
    Hole,
}

/// How drawn pixels are combined with the pixels already there.
#[derive(Debug, Copy, Clone, PartialEq, Eq, Structural)]
pub enum CompositeOperation {
    Basic(BasicCompositeOperation),
    BlendFunc { src: BlendFactor, dst: BlendFactor },
    BlendFuncSeparate {
        src_rgb: BlendFactor,
        dst_rgb: BlendFactor,
        src_alpha: BlendFactor,
        dst_alpha: BlendFactor,
    },
}

/// The Porter-Duff style composite operations.
#[derive(Debug, Copy, Clone, PartialEq, Eq, Structural)]
pub enum BasicCompositeOperation {
    SrcOver,
    SrcIn,
    SrcOut,
    Atop,
    DstOver,
    DstIn,
    DstOut,
    DstAtop,
    Lighter,
    Copy,
    Xor,
}

/// A blend factor of a blend function.
#[derive(Debug, Copy, Clone, PartialEq, Eq, Structural)]
pub enum BlendFactor {
    Zero,
    One,
    SrcColor,
    OneMinusSrcColor,
    DstColor,
    OneMinusDstColor,
    SrcAlpha,
    OneMinusSrcAlpha,
    DstAlpha,
    OneMinusDstAlpha,
    SrcAlphaSaturate,
}

/// One element of a path over points of type `P`.
#[derive(Debug, Copy, Clone, PartialEq, Eq, Structural)]
pub enum PathElement<P> {
    MoveTo(P),
    LineTo(P),
    BezierTo(P, P, P),
    ClosePath,
    Solidity(Solidity),
}

/// Which regions of a self-intersecting path are filled.
#[derive(Debug, Copy, Clone, PartialEq, Eq, Structural)]
pub enum FillType {
    NonZero,
    Odd,
}

/// A finished path.
pub struct Path<P> {
    pub path: Vec<PathElement<P>>,
    pub fill_type: FillType,
}

/// Collects the elements of a path in the order they are added.
pub struct PathBuilder<P> {
    path: Vec<PathElement<P>>,
    fill_type: FillType,
}

impl<P> View for PathBuilder<P> {
    type V = (Seq<PathElement<P>>, FillType);

    closed spec fn view(&self) -> (Seq<PathElement<P>>, FillType) {
        (self.path@, self.fill_type)
    }
}

impl<P> Default for PathBuilder<P> {
    /// An empty path that fills by the non-zero rule.
    fn default() -> (r: Self)
        ensures
            r@ == (Seq::<PathElement<P>>::empty(), FillType::NonZero),
    {
        PathBuilder { path: Vec::new(), fill_type: FillType::NonZero }
    }
}

impl<P: Copy> PathBuilder<P> {
    pub fn set_fill_type(&mut self, fill_type: FillType)
        ensures
            final(self)@ == (old(self)@.0, fill_type),
    {
        self.fill_type = fill_type;
    }

    pub fn move_to(&mut self, location: P)
        ensures
            final(self)@ == (old(self)@.0.push(PathElement::MoveTo(location)), old(self)@.1),
    {
        self.path.push(PathElement::MoveTo(location));
    }

    pub fn line_to(&mut self, location: P)
        ensures
            final(self)@ == (old(self)@.0.push(PathElement::LineTo(location)), old(self)@.1),
    {
        self.path.push(PathElement::LineTo(location));
    }

    pub fn cubic_curve_to(&mut self, control_point_1: P, control_point_2: P, end_point: P)
        ensures
            final(self)@ == (
                old(self)@.0.push(PathElement::BezierTo(control_point_1, control_point_2, end_point)),
                old(self)@.1,
            ),
    {
        self.path.push(PathElement::BezierTo(control_point_1, control_point_2, end_point));
    }

    pub fn close(&mut self)
        ensures
            final(self)@ == (old(self)@.0.push(PathElement::ClosePath), old(self)@.1),
    {
        self.path.push(PathElement::ClosePath);
    }

    /// The path built so far; the builder is consumed.
    pub fn build(self) -> (r: Path<P>)
        ensures
            r.path@ == self@.0,
            r.fill_type == self@.1,
    {
        Path { path: self.path, fill_type: self.fill_type }
    }

    /// A copy of the path built so far; the builder keeps it.
    pub fn build_copy(&mut self) -> (r: Path<P>)
        ensures
            final(self)@ == old(self)@,
            r.path@ == old(self)@.0,
            r.fill_type == old(self)@.1,
    {
        let mut copy: Vec<PathElement<P>> = Vec::new();
        let mut i: usize = 0;
        while i < self.path.len()
            invariant
                i <= self.path@.len(),
                copy@ == self.path@.take(i as int),
            decreases self.path@.len() - i,
        {
            let element: PathElement<P> = self.path[i];
            copy.push(element);
            assert(copy@ =~= self.path@.take(i + 1));
            i = i + 1;
        }
        assert(copy@ =~= self.path@);
        Path { path: copy, fill_type: self.fill_type }
    }
}

} // verus!
