use vstd::prelude::*;

verus! {

/// The laid out text runs of a paragraph, in the order they were added.
pub struct Paragraph<L> {
    pub primitives: Vec<L>,
}

/// Builds a paragraph from text runs.  Styles are kept on a stack: a text
/// run is drawn with the innermost style that is still pushed.
pub struct ParagraphBuilder<F, S, L> {
    fonts: F,
    paragraph: Paragraph<L>,
    styles: Vec<S>,
}

impl<F, S, L> ParagraphBuilder<F, S, L> {
    /// The fonts the runs are drawn with.
    pub closed spec fn spec_fonts(&self) -> F {
        self.fonts
    }

    /// The pushed styles, innermost last.
    pub closed spec fn spec_styles(&self) -> Seq<S> {
        self.styles@
    }

    /// The runs added so far.
    pub closed spec fn spec_runs(&self) -> Seq<L> {
        self.paragraph.primitives@
    }

    /// A builder with no style pushed and no run added.
    pub fn new(fonts: F) -> (r: Result<Self, &'static str>)
        ensures
            r is Ok,
            r->Ok_0.spec_fonts() == fonts,
            r->Ok_0.spec_styles() == Seq::<S>::empty(),
            r->Ok_0.spec_runs() == Seq::<L>::empty(),
    {
        Ok(ParagraphBuilder { fonts, paragraph: Paragraph { primitives: Vec::new() }, styles: Vec::new() })
    }

    pub fn push_style(&mut self, style: S)
        ensures
            final(self).spec_styles() == old(self).spec_styles().push(style),
            final(self).spec_runs() == old(self).spec_runs(),
            final(self).spec_fonts() == old(self).spec_fonts(),
    {
        self.styles.push(style);
    }

    /// Pops the innermost style; popping with no style pushed does nothing.
    pub fn pop_style(&mut self)
        ensures
            final(self).spec_styles() == if old(self).spec_styles().len() > 0 {
                old(self).spec_styles().drop_last()
            } else {
                old(self).spec_styles()
            },
            final(self).spec_runs() == old(self).spec_runs(),
            final(self).spec_fonts() == old(self).spec_fonts(),
    {
        let _ = self.styles.pop();
    }

    /// The style a text run added now is drawn with: the innermost pushed one.
    pub fn current_style(&self) -> (r: Option<&S>)
        ensures
            r == if self.spec_styles().len() > 0 {
                Some(&self.spec_styles().last())
            } else {
                None
            },
    {
        let n = self.styles.len();
        if n > 0 {
            Some(&self.styles[n - 1])
        } else {
            None
        }
    }

    /// The fonts the runs are drawn with.
    pub fn fonts(&self) -> (r: &F)
        ensures
            *r == self.spec_fonts(),
    {
        &self.fonts
    }

    /// Adds a text run laid out with the current style.
    pub fn add_text(&mut self, run: L)
        ensures
            final(self).spec_runs() == old(self).spec_runs().push(run),
            final(self).spec_styles() == old(self).spec_styles(),
            final(self).spec_fonts() == old(self).spec_fonts(),
    {
        self.paragraph.primitives.push(run);
    }

    /// The paragraph of all runs added, in order.
    pub fn build(self) -> (r: Result<Paragraph<L>, &'static str>)
        ensures
            r is Ok,
            r->Ok_0.primitives@ == self.spec_runs(),
    {
        Ok(self.paragraph)
    }
}

} // verus!
