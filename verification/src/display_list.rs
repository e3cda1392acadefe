use vstd::prelude::*;

verus! {

/// A node of a display list.
///
/// `Draw` holds one drawing operation (clear, line, rectangle, image, text,
/// stroke or fill).  `Group` holds primitives that are drawn under a common
/// transform, clip rectangle, clip path or composite layer, which `attr`
/// describes.  The drawing operations and the group attributes are type
/// parameters: the builder below only decides how primitives nest.
#[verifier::reject_recursive_types(L)]
#[verifier::reject_recursive_types(A)]
pub enum Primitive<L, A> {
    Draw(L),
    Group { attr: A, primitives: Vec<Primitive<L, A>> },
}

/// The kind of a frame on the builder's save stack.
pub enum StackElement<A> {
    /// The bottom frame, which receives everything that is not nested.
    Start,
    /// A frame pushed by `save`: `restore` splices its primitives into its parent.
    RestorePoint,
    /// A frame pushed by a transform, a clip or a layer: `restore` wraps its
    /// primitives into a `Primitive::Group` with this attribute.
    Group(A),
}

/// A finished list of primitives.
#[verifier::reject_recursive_types(L)]
#[verifier::reject_recursive_types(A)]
pub struct DisplayList<L, A> {
    pub display_list: Vec<Primitive<L, A>>,
}

impl<L, A> DisplayList<L, A> {
    pub fn new() -> (r: Self)
        ensures
            r.display_list@ == Seq::<Primitive<L, A>>::empty(),
    {
        DisplayList { display_list: Vec::new() }
    }
}

/// One frame of the save stack, as the contracts see it.
pub type Frame<L, A> = (StackElement<A>, Seq<Primitive<L, A>>);

/// `p` is a group with attribute `a` whose children are `children`.
pub open spec fn is_group_of<L, A>(p: Primitive<L, A>, a: A, children: Seq<Primitive<L, A>>) -> bool {
    match p {
        Primitive::Group { attr, primitives } => attr == a && primitives@ == children,
        Primitive::Draw(_) => false,
    }
}

/// `res` is what the frames `fr` collapse into when `restore` folds them:
/// every frame above the first is wrapped into a group that is appended to the
/// frame below it, and the first frame's primitives receive the result.
pub open spec fn collapses_to<L, A>(fr: Seq<Frame<L, A>>, res: Seq<Primitive<L, A>>) -> bool
    decreases fr.len(),
{
    if fr.len() == 0 {
        false
    } else if fr.len() == 1 {
        res == fr[0].1
    } else {
        &&& res.len() == fr[0].1.len() + 1
        &&& res.drop_last() == fr[0].1
        &&& match fr[1].0 {
            StackElement::Group(a) => match res.last() {
                Primitive::Group { attr, primitives } => attr == a && collapses_to(
                    fr.drop_first(),
                    primitives@,
                ),
                Primitive::Draw(_) => false,
            },
            _ => false,
        }
    }
}

/// Index of the topmost restore point above the bottom frame, or 0 when there is none.
pub open spec fn last_restore_point<L, A>(fr: Seq<Frame<L, A>>) -> int
    decreases fr.len(),
{
    if fr.len() <= 1 {
        0
    } else if fr.last().0 is RestorePoint {
        fr.len() - 1
    } else {
        last_restore_point(fr.drop_last())
    }
}

/// The frames `new` are what `restore` leaves of the frames `old`: it folds the
/// frames down to the topmost restore point (wrapping each transform, clip or
/// layer frame into a group) and splices the restore point's primitives into
/// the frame below it; without a restore point it folds everything into the
/// bottom frame.  A stack of one frame is left as it is.
pub open spec fn restored<L, A>(old: Seq<Frame<L, A>>, new: Seq<Frame<L, A>>) -> bool {
    if old.len() <= 1 {
        new == old
    } else {
        let k = last_restore_point(old);
        if k >= 1 {
            let parent = old[k - 1];
            &&& new.len() == k
            &&& new.take(k - 1) == old.take(k - 1)
            &&& new[k - 1].0 == parent.0
            &&& new[k - 1].1.len() >= parent.1.len()
            &&& new[k - 1].1.take(parent.1.len() as int) == parent.1
            &&& collapses_to(old.skip(k), new[k - 1].1.skip(parent.1.len() as int))
        } else {
            &&& new.len() == 1
            &&& new[0].0 == old[0].0
            &&& collapses_to(old, new[0].1)
        }
    }
}

/// A well-formed save stack: the start frame at the bottom and nowhere else.
pub open spec fn frames_wf<L, A>(fr: Seq<Frame<L, A>>) -> bool {
    &&& fr.len() >= 1
    &&& fr[0].0 is Start
    &&& forall|i: int| 1 <= i < fr.len() ==> !(#[trigger] fr[i].0 is Start)
}

/// The drawing operations of a primitive, in drawing order.
pub open spec fn leaves<L, A>(p: Primitive<L, A>) -> Seq<L>
    decreases p,
{
    match p {
        Primitive::Draw(l) => seq![l],
        Primitive::Group { attr, primitives } => {
            proof {
                broadcast use vstd::std_specs::vec::axiom_vec_decreases_to_view;
            }
            leaves_seq(primitives@)
        },
    }
}

/// The drawing operations of a list of primitives, in drawing order.
pub open spec fn leaves_seq<L, A>(s: Seq<Primitive<L, A>>) -> Seq<L>
    decreases s,
{
    if s.len() == 0 {
        Seq::empty()
    } else {
        leaves(s[0]) + leaves_seq(s.drop_first())
    }
}

/// The drawing operations held by all frames of a stack, bottom frame first.
pub open spec fn stack_leaves<L, A>(fr: Seq<Frame<L, A>>) -> Seq<L>
    decreases fr.len(),
{
    if fr.len() == 0 {
        Seq::empty()
    } else {
        leaves_seq(fr[0].1) + stack_leaves(fr.drop_first())
    }
}

/// Builds a display list.  Transforms, clips and layers open a frame on a save
/// stack; `restore` closes frames again and nests what was drawn in them.
#[verifier::reject_recursive_types(L)]
#[verifier::reject_recursive_types(A)]
pub struct DisplayListBuilder<L, A> {
    display_list_stack: Vec<(StackElement<A>, DisplayList<L, A>)>,
}

impl<L, A> View for DisplayListBuilder<L, A> {
    type V = Seq<Frame<L, A>>;

    closed spec fn view(&self) -> Seq<Frame<L, A>> {
        self.display_list_stack@.map_values(
            |f: (StackElement<A>, DisplayList<L, A>)| (f.0, f.1.display_list@),
        )
    }
}


impl<L, A> DisplayListBuilder<L, A> {
    /// The save stack has its start frame at the bottom and nowhere else.
    pub open spec fn wf(&self) -> bool {
        frames_wf(self@)
    }

    /// A builder with only the start frame, which holds no primitive.
    pub fn new() -> (r: Self)
        ensures
            r.wf(),
            r@ == seq![(StackElement::<A>::Start, Seq::<Primitive<L, A>>::empty())],
    {
        let mut stack: Vec<(StackElement<A>, DisplayList<L, A>)> = Vec::new();
        stack.push((StackElement::Start, DisplayList::new()));
        let r = DisplayListBuilder { display_list_stack: stack };
        assert(r@ =~= seq![(StackElement::<A>::Start, Seq::<Primitive<L, A>>::empty())]);
        r
    }

    fn push_frame(&mut self, element: StackElement<A>)
        ensures
            final(self)@ == old(self)@.push((element, Seq::<Primitive<L, A>>::empty())),
    {
        let ghost before = self@;
        self.display_list_stack.push((element, DisplayList::new()));
        assert(self@ =~= before.push((element, Seq::<Primitive<L, A>>::empty())));
    }

    /// Appends a primitive to the frame on top of the save stack.
    fn push_to_top(&mut self, p: Primitive<L, A>)
        requires
            old(self).wf(),
        ensures
            final(self).wf(),
            final(self)@ == old(self)@.update(
                old(self)@.len() - 1,
                (old(self)@.last().0, old(self)@.last().1.push(p)),
            ),
    {
        let ghost before = self@;
        let (element, mut list) = self.display_list_stack.pop().unwrap();
        list.display_list.push(p);
        self.display_list_stack.push((element, list));
        assert(self@ =~= before.update(before.len() - 1, (before.last().0, before.last().1.push(p))));
    }

    /// Draws one operation into the innermost open frame.
    pub fn draw(&mut self, operation: L)
        requires
            old(self).wf(),
        ensures
            final(self).wf(),
            final(self)@ == old(self)@.update(
                old(self)@.len() - 1,
                (old(self)@.last().0, old(self)@.last().1.push(Primitive::Draw(operation))),
            ),
    {
        self.push_to_top(Primitive::Draw(operation));
    }

    /// Draws a path as `style` asks: `fill` for a filled path, `stroke` for a
    /// stroked one, and the fill before the stroke when both are asked.
    pub fn draw_path(&mut self, style: DrawStyle, fill: L, stroke: L)
        requires
            old(self).wf(),
        ensures
            final(self).wf(),
            final(self)@ == old(self)@.update(
                old(self)@.len() - 1,
                (old(self)@.last().0, old(self)@.last().1 + match style {
                    DrawStyle::Fill => seq![Primitive::Draw(fill)],
                    DrawStyle::Stroke => seq![Primitive::Draw(stroke)],
                    DrawStyle::StrokeAndFill => seq![Primitive::Draw(fill), Primitive::Draw(stroke)],
                }),
            ),
    {
        let ghost before = self@;
        match style {
            DrawStyle::Fill => {
                let ghost f = Primitive::<L, A>::Draw(fill);
                self.draw(fill);
                assert(before.last().1.push(f) =~= before.last().1 + seq![f]);
                assert(self@ =~= before.update(before.len() - 1, (before.last().0, before.last().1 + seq![Primitive::Draw(fill)])));
            },
            DrawStyle::Stroke => {
                let ghost k = Primitive::<L, A>::Draw(stroke);
                self.draw(stroke);
                assert(before.last().1.push(k) =~= before.last().1 + seq![k]);
                assert(self@ =~= before.update(before.len() - 1, (before.last().0, before.last().1 + seq![Primitive::Draw(stroke)])));
            },
            DrawStyle::StrokeAndFill => {
                let ghost f = Primitive::<L, A>::Draw(fill);
                let ghost k = Primitive::<L, A>::Draw(stroke);
                self.draw(fill);
                self.draw(stroke);
                assert(before.last().1.push(f).push(k) =~= before.last().1 + seq![f, k]);
                assert(self@ =~= before.update(before.len() - 1, (before.last().0, before.last().1 + seq![f, k])));
            },
        }
    }

    /// Opens a frame for a transform, a clip rectangle or a clip path: what is
    /// drawn until the matching `restore` is nested in a group with `attr`.
    pub fn push_group(&mut self, attr: A)
        requires
            old(self).wf(),
        ensures
            final(self).wf(),
            final(self)@ == old(self)@.push((StackElement::Group(attr), Seq::<Primitive<L, A>>::empty())),
    {
        self.push_frame(StackElement::Group(attr));
    }

    /// Opens a restore point.
    pub fn save(&mut self)
        requires
            old(self).wf(),
        ensures
            final(self).wf(),
            final(self)@ == old(self)@.push((StackElement::RestorePoint, Seq::<Primitive<L, A>>::empty())),
    {
        self.push_frame(StackElement::RestorePoint);
    }

    /// Opens a restore point and, above it, a layer frame whose primitives are
    /// composited as a group with `attr`.
    pub fn save_layer(&mut self, attr: A)
        requires
            old(self).wf(),
        ensures
            final(self).wf(),
            final(self)@ == old(self)@.push((StackElement::RestorePoint, Seq::<Primitive<L, A>>::empty())).push(
                (StackElement::Group(attr), Seq::<Primitive<L, A>>::empty()),
            ),
    {
        self.push_frame(StackElement::RestorePoint);
        self.push_frame(StackElement::Group(attr));
    }

    /// The number of frames on the save stack, the start frame included.
    pub fn get_save_count(&mut self) -> (r: usize)
        ensures
            r == old(self)@.len(),
            final(self)@ == old(self)@,
    {
        self.display_list_stack.len()
    }

    /// Closes frames down to the topmost restore point, or down to the start
    /// frame when there is none (see `restored`).
    pub fn restore(&mut self)
        requires
            old(self).wf(),
        ensures
            final(self).wf(),
            restored(old(self)@, final(self)@),
    {
        self.restore_frames();
    }

    fn restore_frames(&mut self)
        requires
            old(self).wf(),
        ensures
            final(self).wf(),
            restored(old(self)@, final(self)@),
        decreases old(self)@.len(),
    {
        let ghost old_frames = self@;
        if self.display_list_stack.len() <= 1 {
            return;
        }
        let (element, mut list) = self.display_list_stack.pop().unwrap();
        let (parent_element, mut parent_list) = self.display_list_stack.pop().unwrap();
        let ghost n = old_frames.len();
        let ghost parent = old_frames[n - 2];
        let ghost top = old_frames[n - 1];
        assert(self@ =~= old_frames.take(n - 2));
        match element {
            StackElement::Start => {
                assert(old_frames[n - 1].0 is Start);
                assert(false);
            },
            StackElement::RestorePoint => {
                parent_list.display_list.append(&mut list.display_list);
                self.display_list_stack.push((parent_element, parent_list));
                let ghost new_frames = self@;
                assert(new_frames =~= old_frames.take(n - 2).push((parent.0, parent.1 + top.1)));
                assert(last_restore_point(old_frames) == n - 1);
                assert(new_frames.take(n - 2) =~= old_frames.take(n - 2));
                assert(new_frames[n - 2].1.take(parent.1.len() as int) =~= parent.1);
                assert(new_frames[n - 2].1.skip(parent.1.len() as int) =~= top.1);
                assert(old_frames.skip(n - 1) =~= seq![top]);
            },
            StackElement::Group(attr) => {
                let ghost children = list.display_list@;
                let ghost a = attr;
                parent_list.display_list.push(Primitive::Group { attr, primitives: list.display_list });
                self.display_list_stack.push((parent_element, parent_list));
                let ghost mid = self@;
                let ghost p = mid[n - 2].1.last();
                assert(mid =~= old_frames.take(n - 2).push((parent.0, parent.1.push(p))));
                assert(is_group_of(p, a, children));
                proof {
                    lemma_restore_step(old_frames, a, p);
                }
                self.restore_frames();
            },
        }
    }

    /// The display list of the frame on top of the save stack.
    pub fn build(self) -> (r: Result<DisplayList<L, A>, &'static str>)
        requires
            self.wf(),
        ensures
            r is Ok,
            r->Ok_0.display_list@ == self@.last().1,
    {
        let mut stack = self.display_list_stack;
        let (_element, list) = stack.pop().unwrap();
        Ok(list)
    }
}

/// One fold of `restore` on a group frame: once the top frame has become a
/// group `p` of its parent, what restoring the result gives is what restoring
/// the original frames gives.
proof fn lemma_restore_step<L, A>(old: Seq<Frame<L, A>>, a: A, p: Primitive<L, A>)
    requires
        frames_wf(old),
        old.len() >= 2,
        old.last().0 == StackElement::<A>::Group(a),
        is_group_of(p, a, old.last().1),
    ensures
        ({
            let n = old.len();
            let mid = old.take(n - 2).push((old[n - 2].0, old[n - 2].1.push(p)));
            &&& frames_wf(mid)
            &&& forall|g: Seq<Frame<L, A>>| #[trigger] restored(mid, g) ==> restored(old, g)
        }),
{
    let n = old.len();
    let parent = old[n - 2];
    let top = old[n - 1];
    let mid = old.take(n - 2).push((parent.0, parent.1.push(p)));
    assert(old.drop_last() =~= old.take(n - 1));
    lemma_last_restore_point_kinds(mid, old.drop_last());
    lemma_last_restore_point_bounds(old.drop_last());
    let k = last_restore_point(old);
    assert(k == last_restore_point(mid));
    assert(frames_wf(mid)) by {
        assert forall|i: int| 1 <= i < mid.len() implies !(#[trigger] mid[i].0 is Start) by {
            assert(mid[i].0 == old[i].0);
        }
    }
    assert forall|g: Seq<Frame<L, A>>| #[trigger] restored(mid, g) implies restored(old, g) by {
        if mid.len() <= 1 {
            assert(g == mid);
            assert(old.take(0) =~= Seq::<Frame<L, A>>::empty());
            assert(mid =~= Seq::<Frame<L, A>>::empty().push((parent.0, parent.1.push(p))));
            lemma_collapse_merge(Seq::<Frame<L, A>>::empty(), parent.0, parent.1, a, top.1, p, g[0].1);
            assert(old =~= Seq::<Frame<L, A>>::empty() + seq![(parent.0, parent.1), (StackElement::Group(a), top.1)]);
        } else if k >= 1 {
            let pre = old.subrange(k, n - 2);
            let x = g[k - 1].1.skip(old[k - 1].1.len() as int);
            assert(mid.skip(k) =~= pre.push((parent.0, parent.1.push(p))));
            lemma_collapse_merge(pre, parent.0, parent.1, a, top.1, p, x);
            assert(old.skip(k) =~= pre + seq![(parent.0, parent.1), (StackElement::Group(a), top.1)]);
            assert(mid[k - 1] == old[k - 1]);
            assert(mid.take(k - 1) =~= old.take(k - 1));
        } else {
            let pre = old.take(n - 2);
            lemma_collapse_merge(pre, parent.0, parent.1, a, top.1, p, g[0].1);
            assert(old =~= pre + seq![(parent.0, parent.1), (StackElement::Group(a), top.1)]);
            assert(mid[0].0 == old[0].0);
        }
    }
}

proof fn lemma_leaves_seq_append<L, A>(a: Seq<Primitive<L, A>>, b: Seq<Primitive<L, A>>)
    ensures
        leaves_seq(a + b) == leaves_seq(a) + leaves_seq(b),
    decreases a.len(),
{
    if a.len() == 0 {
        assert(a + b =~= b);
        assert(leaves_seq(a) + leaves_seq(b) =~= leaves_seq(b));
    } else {
        assert((a + b).drop_first() =~= a.drop_first() + b);
        assert((a + b)[0] == a[0]);
        lemma_leaves_seq_append(a.drop_first(), b);
        assert(leaves_seq(a + b) =~= leaves(a[0]) + (leaves_seq(a.drop_first()) + leaves_seq(b)));
    }
}

proof fn lemma_stack_leaves_append<L, A>(a: Seq<Frame<L, A>>, b: Seq<Frame<L, A>>)
    ensures
        stack_leaves(a + b) == stack_leaves(a) + stack_leaves(b),
    decreases a.len(),
{
    if a.len() == 0 {
        assert(a + b =~= b);
        assert(stack_leaves(a) + stack_leaves(b) =~= stack_leaves(b));
    } else {
        assert((a + b).drop_first() =~= a.drop_first() + b);
        assert((a + b)[0] == a[0]);
        lemma_stack_leaves_append(a.drop_first(), b);
        assert(stack_leaves(a + b) =~= leaves_seq(a[0].1) + (stack_leaves(a.drop_first()) + stack_leaves(b)));
    }
}

proof fn lemma_stack_leaves_single<L, A>(f: Frame<L, A>)
    ensures
        stack_leaves(seq![f]) == leaves_seq(f.1),
{
    assert(seq![f].drop_first() =~= Seq::<Frame<L, A>>::empty());
    assert(stack_leaves(Seq::<Frame<L, A>>::empty()) == Seq::<L>::empty());
    assert(leaves_seq(f.1) + Seq::<L>::empty() =~= leaves_seq(f.1));
}

proof fn lemma_leaves_seq_single<L, A>(p: Primitive<L, A>)
    ensures
        leaves_seq(seq![p]) == leaves(p),
{
    assert(seq![p].drop_first() =~= Seq::<Primitive<L, A>>::empty());
    assert(leaves_seq(Seq::<Primitive<L, A>>::empty()) == Seq::<L>::empty());
    assert(leaves(p) + Seq::<L>::empty() =~= leaves(p));
}

proof fn lemma_collapse_leaves<L, A>(fr: Seq<Frame<L, A>>, x: Seq<Primitive<L, A>>)
    requires
        collapses_to(fr, x),
    ensures
        leaves_seq(x) == stack_leaves(fr),
    decreases fr.len(),
{
    if fr.len() == 1 {
        assert(fr =~= seq![fr[0]]);
        lemma_stack_leaves_single(fr[0]);
    } else {
        let g = x.last();
        match g {
            Primitive::Group { attr, primitives } => {
                lemma_collapse_leaves(fr.drop_first(), primitives@);
                assert(x =~= fr[0].1 + seq![g]);
                lemma_leaves_seq_append(fr[0].1, seq![g]);
                lemma_leaves_seq_single(g);
            },
            Primitive::Draw(_) => {},
        }
    }
}

/// Law: `restore` never loses, duplicates or reorders a drawing operation.
/// The operations held by the whole save stack, read bottom frame first and
/// each frame in drawing order, are the same before and after a restore.
pub proof fn lemma_restore_keeps_operations<L, A>(old: Seq<Frame<L, A>>, new: Seq<Frame<L, A>>)
    requires
        frames_wf(old),
        restored(old, new),
    ensures
        stack_leaves(new) == stack_leaves(old),
{
    let n = old.len();
    if n > 1 {
        let k = last_restore_point(old);
        lemma_last_restore_point_bounds(old);
        if k >= 1 {
            let parent = old[k - 1];
            let x = new[k - 1].1.skip(parent.1.len() as int);
            lemma_collapse_leaves(old.skip(k), x);
            assert(new =~= new.take(k - 1) + seq![new[k - 1]]);
            assert(old =~= old.take(k - 1) + (seq![parent] + old.skip(k)));
            lemma_stack_leaves_append(new.take(k - 1), seq![new[k - 1]]);
            lemma_stack_leaves_append(old.take(k - 1), seq![parent] + old.skip(k));
            lemma_stack_leaves_append(seq![parent], old.skip(k));
            assert(new[k - 1].1 =~= parent.1 + x);
            lemma_leaves_seq_append(parent.1, x);
            lemma_stack_leaves_single(new[k - 1]);
            lemma_stack_leaves_single(parent);
        } else {
            lemma_collapse_leaves(old, new[0].1);
            assert(new =~= seq![new[0]]);
            lemma_stack_leaves_single(new[0]);
        }
    }
}

/// Law: restoring a restore point splices what was drawn after it into the
/// frame below it.  In particular `save` followed by `restore` leaves the
/// stack as it was, and `save`, draws, `restore` is the same as the draws.
pub proof fn lemma_restore_point_splices<L, A>(
    fr: Seq<Frame<L, A>>,
    drawn: Seq<Primitive<L, A>>,
    new: Seq<Frame<L, A>>,
)
    requires
        frames_wf(fr),
        restored(fr.push((StackElement::RestorePoint, drawn)), new),
    ensures
        new == fr.update(fr.len() - 1, (fr.last().0, fr.last().1 + drawn)),
{
    let old = fr.push((StackElement::<A>::RestorePoint, drawn));
    let n = old.len();
    assert(last_restore_point(old) == n - 1);
    assert(old.skip(n - 1) =~= seq![(StackElement::<A>::RestorePoint, drawn)]);
    let parent = fr.last();
    assert(old[n - 2] == parent);
    let x = new[n - 2].1.skip(parent.1.len() as int);
    assert(x == drawn);
    assert(new[n - 2].1 =~= parent.1 + drawn);
    assert(new =~= fr.update(fr.len() - 1, (fr.last().0, fr.last().1 + drawn))) by {
        assert(new.take(n - 2) =~= fr.take(n - 2));
        assert forall|i: int| 0 <= i < new.len() implies new[i] == fr.update(fr.len() - 1, (fr.last().0, fr.last().1 + drawn))[i] by {
            if i < n - 2 {
                assert(new[i] == new.take(n - 2)[i]);
            }
        }
    }
}

/// Law: a layer opened by `save_layer` is closed by one `restore`, which
/// appends one group with the layer's attribute, holding what was drawn in
/// the layer, to the frame below the layer.
pub proof fn lemma_restore_closes_layer<L, A>(
    fr: Seq<Frame<L, A>>,
    attr: A,
    drawn: Seq<Primitive<L, A>>,
    new: Seq<Frame<L, A>>,
)
    requires
        frames_wf(fr),
        restored(fr.push((StackElement::RestorePoint, Seq::empty())).push((StackElement::Group(attr), drawn)), new),
    ensures
        new.len() == fr.len(),
        new.take(fr.len() - 1) == fr.take(fr.len() - 1),
        new.last().0 == fr.last().0,
        new.last().1.len() == fr.last().1.len() + 1,
        new.last().1.drop_last() == fr.last().1,
        is_group_of(new.last().1.last(), attr, drawn),
{
    let old = fr.push((StackElement::<A>::RestorePoint, Seq::empty())).push((StackElement::Group(attr), drawn));
    let n = old.len();
    assert(old.drop_last() =~= fr.push((StackElement::<A>::RestorePoint, Seq::empty())));
    assert(old.last().0 == StackElement::Group(attr));
    assert(old.drop_last().last().0 is RestorePoint);
    assert(last_restore_point(old.drop_last()) == n - 2);
    assert(last_restore_point(old) == n - 2);
    let parent = fr.last();
    assert(old[n - 3] == parent);
    let x = new[n - 3].1.skip(parent.1.len() as int);
    assert(old.skip(n - 2) =~= seq![(StackElement::<A>::RestorePoint, Seq::<Primitive<L, A>>::empty()), (StackElement::Group(attr), drawn)]);
    assert(collapses_to(old.skip(n - 2), x));
    assert(old.skip(n - 2).drop_first() =~= seq![(StackElement::Group(attr), drawn)]);
    assert(x.len() == 1);
    match x.last() {
        Primitive::Group { attr: a2, primitives } => {
            assert(collapses_to(seq![(StackElement::Group(attr), drawn)], primitives@));
            assert(primitives@ == drawn);
        },
        Primitive::Draw(_) => {},
    }
    assert(new[n - 3].1 =~= parent.1 + x);
    assert(new.last().1.drop_last() =~= parent.1);
    assert(new.last().1.last() == x.last());
    assert(new.take(fr.len() - 1) =~= fr.take(fr.len() - 1)) by {
        assert(new.take(n - 3) =~= old.take(n - 3));
        assert(old.take(n - 3) =~= fr.take(n - 3));
    }
}

/// Law: after a restore the save count is the position of the topmost
/// restore point, or one when there was none; it never grows, and the start
/// frame stays at the bottom.
pub proof fn lemma_restore_save_count<L, A>(old: Seq<Frame<L, A>>, new: Seq<Frame<L, A>>)
    requires
        frames_wf(old),
        restored(old, new),
    ensures
        new.len() == if last_restore_point(old) >= 1 { last_restore_point(old) } else { 1 },
        new.len() <= old.len(),
        new[0].0 is Start,
{
    lemma_last_restore_point_bounds(old);
    let k = last_restore_point(old);
    if old.len() > 1 && k >= 2 {
        assert(new[0] == new.take(k - 1)[0]);
    }
}

/// How a path is painted.
#[derive(Clone, Copy, Debug, PartialEq, Eq, Structural)]
pub enum DrawStyle {
    Fill,
    Stroke,
    StrokeAndFill,
}

proof fn lemma_last_restore_point_kinds<L, A>(a: Seq<Frame<L, A>>, b: Seq<Frame<L, A>>)
    requires
        a.len() == b.len(),
        forall|i: int| 0 <= i < a.len() ==> a[i].0 == b[i].0,
    ensures
        last_restore_point(a) == last_restore_point(b),
    decreases a.len(),
{
    if a.len() > 1 {
        lemma_last_restore_point_kinds(a.drop_last(), b.drop_last());
    }
}

proof fn lemma_last_restore_point_bounds<L, A>(fr: Seq<Frame<L, A>>)
    ensures
        0 <= last_restore_point(fr),
        fr.len() >= 1 ==> last_restore_point(fr) < fr.len(),
        last_restore_point(fr) >= 1 ==> fr[last_restore_point(fr)].0 is RestorePoint,
    decreases fr.len(),
{
    if fr.len() > 1 && !(fr.last().0 is RestorePoint) {
        lemma_last_restore_point_bounds(fr.drop_last());
    }
}

/// Folding the top frame into a group of its parent first does not change
/// what the frames collapse into.
proof fn lemma_collapse_merge<L, A>(
    pre: Seq<Frame<L, A>>,
    e: StackElement<A>,
    l: Seq<Primitive<L, A>>,
    a: A,
    t: Seq<Primitive<L, A>>,
    p: Primitive<L, A>,
    x: Seq<Primitive<L, A>>,
)
    requires
        is_group_of(p, a, t),
        collapses_to(pre.push((e, l.push(p))), x),
    ensures
        collapses_to(pre + seq![(e, l), (StackElement::Group(a), t)], x),
    decreases pre.len(),
{
    let full = pre + seq![(e, l), (StackElement::Group(a), t)];
    if pre.len() == 0 {
        assert(pre.push((e, l.push(p))) =~= seq![(e, l.push(p))]);
        assert(full =~= seq![(e, l), (StackElement::Group(a), t)]);
        assert(full.drop_first() =~= seq![(StackElement::Group(a), t)]);
        assert(x.drop_last() =~= l);
        assert(collapses_to(seq![(StackElement::<A>::Group(a), t)], t));
        assert(collapses_to(full.drop_first(), t));
    } else {
        let merged = pre.push((e, l.push(p)));
        let rest = pre.drop_first();
        assert(merged.drop_first() =~= rest.push((e, l.push(p))));
        assert(full.drop_first() =~= rest + seq![(e, l), (StackElement::Group(a), t)]);
        assert(merged[0] == pre[0]);
        assert(full[0] == pre[0]);
        if pre.len() == 1 {
            assert(merged[1] == (e, l.push(p)));
            assert(full[1] == (e, l));
        } else {
            assert(merged[1] == pre[1]);
            assert(full[1] == pre[1]);
        }
        match merged[1].0 {
            StackElement::Group(b) => {
                match x.last() {
                    Primitive::Group { attr, primitives } => {
                        lemma_collapse_merge(rest, e, l, a, t, p, primitives@);
                    },
                    Primitive::Draw(_) => {},
                }
            },
            _ => {},
        }
    }
}

} // verus!
